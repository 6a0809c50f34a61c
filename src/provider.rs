use vstd::prelude::*;

use crate::config::MSGraphConfig;
use crate::json::{json_member_str, member_str};

verus! {

pub const CHINA_GRAPH_API: &'static str = "https://microsoftgraph.chinacloudapi.cn/v1.0/";

pub const CHINA_OAUTH_API: &'static str = "https://login.chinacloudapi.cn/common/oauth2/v2.0/";

pub const GLOBAL_GRAPH_API: &'static str = "https://graph.microsoft.com/v1.0/";

pub const GLOBAL_OAUTH_API: &'static str = "https://login.microsoftonline.com/common/oauth2/v2.0/";

/// The region name that selects the restricted cloud; any other selects the
/// global one.
pub const CHINA_REGION: &'static str = "china";

/// The JSON member of a metadata reply that holds a temporary download link.
pub const DOWNLOAD_URL_MEMBER: &'static str = "@microsoft.graph.downloadUrl";

/// How many times a request is sent when the transport fails.
pub const SEND_ATTEMPTS: u32 = 3;

/// The sends of one request whose transport failed so far.
pub struct SendAttempts {
    failed: u32,
}

impl SendAttempts {
    pub closed spec fn failed_spec(&self) -> nat {
        self.failed as nat
    }

    pub fn new() -> (r: Self)
        ensures
            r.failed_spec() == 0,
    {
        SendAttempts { failed: 0 }
    }

    /// Records a send whose transport failed; tells whether to send again,
    /// which is so until `SEND_ATTEMPTS` sends have failed.
    pub fn transport_failed(&mut self) -> (again: bool)
        ensures
            final(self).failed_spec() == (if old(self).failed_spec() < SEND_ATTEMPTS {
                old(self).failed_spec() + 1
            } else {
                old(self).failed_spec()
            }),
            again == (final(self).failed_spec() < SEND_ATTEMPTS),
    {
        if self.failed < SEND_ATTEMPTS {
            self.failed = self.failed + 1;
        }
        self.failed < SEND_ATTEMPTS
    }
}

/// Why one provider could not hand out a link.
#[derive(Debug, Clone, Copy, PartialEq, Eq, Structural)]
pub enum ProviderFailure {
    /// Upstream could not be reached, on every attempt.
    Transport,
    /// Upstream answered with this non-success status.
    UpstreamRejected(u16),
    /// Upstream answered with success but the body held no usable value.
    Decode,
    /// No provider of the fleet has the id asked for.
    UnknownProvider,
}

/// What asking one provider for a link can end in, short of a link.
#[derive(Debug, Clone, Copy, PartialEq, Eq, Structural)]
pub enum ProviderError {
    /// The path does not exist upstream: asking another provider cannot help.
    ResourceNotFound,
    /// This provider cannot serve now: pause it and ask the next one.
    Unavailable(ProviderFailure),
}

pub open spec fn is_success_status(status: u16) -> bool {
    200 <= status <= 299
}

/// The outcome of a link request that got `status` back, where `link` is
/// what the body holds under the download-link member.
pub open spec fn resolve_outcome(status: u16, link: Option<Seq<char>>) -> Result<
    Seq<char>,
    ProviderError,
> {
    if is_success_status(status) {
        match link {
            Some(l) => Ok(l),
            None => Err(ProviderError::Unavailable(ProviderFailure::Decode)),
        }
    } else if status == 400 {
        Err(ProviderError::ResourceNotFound)
    } else {
        Err(ProviderError::Unavailable(ProviderFailure::UpstreamRejected(status)))
    }
}

pub open spec fn result_view(r: Result<String, ProviderError>) -> Result<Seq<char>, ProviderError> {
    match r {
        Ok(s) => Ok(s@),
        Err(e) => Err(e),
    }
}

pub open spec fn reply_view(reply: Option<(u16, &str)>) -> Option<(u16, Seq<char>)> {
    match reply {
        Some((status, body)) => Some((status, body@)),
        None => None,
    }
}

/// What a token-exchange reply yields: the new access and refresh tokens,
/// or why the exchange failed. `None` stands for a failed transport.
pub open spec fn token_outcome(reply: Option<(u16, Seq<char>)>) -> Result<
    (Seq<char>, Seq<char>),
    ProviderError,
> {
    match reply {
        None => Err(ProviderError::Unavailable(ProviderFailure::Transport)),
        Some((status, body)) => if !is_success_status(status) {
            Err(ProviderError::Unavailable(ProviderFailure::UpstreamRejected(status)))
        } else {
            match (json_member_str(body, "access_token"@), json_member_str(body, "refresh_token"@)) {
                (Some(a), Some(t)) => Ok((a, t)),
                _ => Err(ProviderError::Unavailable(ProviderFailure::Decode)),
            }
        },
    }
}

/// What a storage-root reply yields: the root's id, or why the lookup
/// failed. `None` stands for a failed transport.
pub open spec fn drive_outcome(reply: Option<(u16, Seq<char>)>) -> Result<Seq<char>, ProviderError> {
    match reply {
        None => Err(ProviderError::Unavailable(ProviderFailure::Transport)),
        Some((status, body)) => if !is_success_status(status) {
            Err(ProviderError::Unavailable(ProviderFailure::UpstreamRejected(status)))
        } else {
            match json_member_str(body, "id"@) {
                Some(id) => Ok(id),
                None => Err(ProviderError::Unavailable(ProviderFailure::Decode)),
            }
        },
    }
}

/// Decides a link request from its status and from what its body holds
/// under the download-link member.
pub fn classify_link_reply(status: u16, link: Option<String>) -> (r: Result<String, ProviderError>)
    ensures
        result_view(r) == resolve_outcome(
            status,
            match link {
                Some(l) => Some(l@),
                None => None,
            },
        ),
{
    if 200 <= status && status <= 299 {
        match link {
            Some(l) => Ok(l),
            None => Err(ProviderError::Unavailable(ProviderFailure::Decode)),
        }
    } else if status == 400 {
        Err(ProviderError::ResourceNotFound)
    } else {
        Err(ProviderError::Unavailable(ProviderFailure::UpstreamRejected(status)))
    }
}

/// Decides a link request from its reply; `None` stands for a request
/// whose every attempt failed in transport.
pub fn classify_link_response(reply: Option<(u16, &str)>) -> (r: Result<String, ProviderError>)
    ensures
        match reply {
            None => r == Err::<String, ProviderError>(
                ProviderError::Unavailable(ProviderFailure::Transport),
            ),
            Some((status, body)) => result_view(r) == resolve_outcome(
                status,
                if is_success_status(status) {
                    json_member_str(body@, DOWNLOAD_URL_MEMBER@)
                } else {
                    None
                },
            ),
        },
{
    match reply {
        None => Err(ProviderError::Unavailable(ProviderFailure::Transport)),
        Some((status, body)) => {
            if 200 <= status && status <= 299 {
                let link = member_str(body, DOWNLOAD_URL_MEMBER);
                classify_link_reply(status, link)
            } else {
                classify_link_reply(status, None)
            }
        },
    }
}

/// The client of one storage account: its configuration, the API bases of
/// its region, the storage root it serves from and its current access
/// token.
pub struct MSGraphClient {
    config: MSGraphConfig,
    graph_api: String,
    oauth_api: String,
    drive_id: String,
    access_token: String,
}

impl MSGraphClient {
    pub closed spec fn config_spec(&self) -> MSGraphConfig {
        self.config
    }

    pub closed spec fn graph_api_spec(&self) -> Seq<char> {
        self.graph_api@
    }

    pub closed spec fn oauth_api_spec(&self) -> Seq<char> {
        self.oauth_api@
    }

    pub closed spec fn drive_id_spec(&self) -> Seq<char> {
        self.drive_id@
    }

    pub closed spec fn access_token_spec(&self) -> Seq<char> {
        self.access_token@
    }

    /// Sets up a client for `config`: the restricted region's API bases for
    /// region `china`, the global ones otherwise; no storage root and no
    /// access token yet.
    pub fn new(config: MSGraphConfig) -> (r: Self)
        ensures
            fresh_client(r, config),
    {
        let china = config.region == String::from_str(CHINA_REGION);
        let (graph_api, oauth_api) = if china {
            (String::from_str(CHINA_GRAPH_API), String::from_str(CHINA_OAUTH_API))
        } else {
            (String::from_str(GLOBAL_GRAPH_API), String::from_str(GLOBAL_OAUTH_API))
        };
        MSGraphClient {
            config,
            graph_api,
            oauth_api,
            drive_id: String::new(),
            access_token: String::new(),
        }
    }

    pub fn id(&self) -> (r: &String)
        ensures
            *r == self.config_spec().id,
    {
        &self.config.id
    }

    pub fn config(&self) -> (r: &MSGraphConfig)
        ensures
            *r == self.config_spec(),
    {
        &self.config
    }

    pub fn drive_id(&self) -> (r: &String)
        ensures
            r@ == self.drive_id_spec(),
    {
        &self.drive_id
    }

    /// The value of the `Authorization` header of API requests.
    pub fn bearer(&self) -> (r: String)
        ensures
            r@ == "Bearer "@ + self.access_token_spec(),
    {
        String::from_str("Bearer ").concat(self.access_token.as_str())
    }

    /// Where the storage root's id is looked up (asked for with
    /// `$select=id`).
    pub fn drive_request_url(&self) -> (r: String)
        ensures
            r@ == self.graph_api_spec() + self.config_spec().drive_url@,
    {
        self.graph_api.clone().concat(self.config.drive_url.as_str())
    }

    /// Where the link for `resource_path` is looked up (asked for with
    /// `$select=content.downloadUrl`).
    pub fn link_request_url(&self, resource_path: &str) -> (r: String)
        ensures
            r@ == self.graph_api_spec() + "drives/"@ + self.drive_id_spec() + "/root:"@
                + resource_path@,
    {
        let s = self.graph_api.clone().concat("drives/");
        let s = s.concat(self.drive_id.as_str());
        let s = s.concat("/root:");
        s.concat(resource_path)
    }

    /// Where a refresh token is exchanged.
    pub fn token_request_url(&self) -> (r: String)
        ensures
            r@ == self.oauth_api_spec() + "token"@,
    {
        self.oauth_api.clone().concat("token")
    }

    /// The form of a token exchange: it spends the stored refresh token.
    pub fn token_request_form(&self) -> (r: Vec<(String, String)>)
        ensures
            r@.len() == 5,
            r@[0].0@ == "client_id"@ && r@[0].1@ == self.config_spec().client_id@,
            r@[1].0@ == "grant_type"@ && r@[1].1@ == "refresh_token"@,
            r@[2].0@ == "refresh_token"@ && r@[2].1@ == self.config_spec().refresh_token@,
            r@[3].0@ == "redirect_uri"@ && r@[3].1@ == self.config_spec().redirect_url@,
            r@[4].0@ == "client_secret"@ && r@[4].1@ == self.config_spec().client_secret@,
    {
        let mut form: Vec<(String, String)> = Vec::new();
        form.push((String::from_str("client_id"), self.config.client_id.clone()));
        form.push((String::from_str("grant_type"), String::from_str("refresh_token")));
        form.push((String::from_str("refresh_token"), self.config.refresh_token.clone()));
        form.push((String::from_str("redirect_uri"), self.config.redirect_url.clone()));
        form.push((String::from_str("client_secret"), self.config.client_secret.clone()));
        form
    }

    /// Takes in a token exchange that got `status` back, where `access` and
    /// `refresh` are what the body holds under `access_token` and
    /// `refresh_token`. On success both tokens are replaced together; on any
    /// failure neither changes.
    pub fn apply_token_reply(
        &mut self,
        status: u16,
        access: Option<String>,
        refresh: Option<String>,
    ) -> (r: Result<(), ProviderError>)
        ensures
            final(self).config_spec().id == old(self).config_spec().id,
            final(self).graph_api_spec() == old(self).graph_api_spec(),
            final(self).oauth_api_spec() == old(self).oauth_api_spec(),
            final(self).drive_id_spec() == old(self).drive_id_spec(),
            !is_success_status(status) ==> r == Err::<(), ProviderError>(
                ProviderError::Unavailable(ProviderFailure::UpstreamRejected(status)),
            ),
            is_success_status(status) && (access is None || refresh is None) ==> r == Err::<
                (),
                ProviderError,
            >(ProviderError::Unavailable(ProviderFailure::Decode)),
            r is Ok <==> is_success_status(status) && access is Some && refresh is Some,
            r is Ok ==> tokens_rotated(*old(self), *final(self), access->0@, refresh->0@),
            r is Err ==> *final(self) == *old(self),
    {
        if !(200 <= status && status <= 299) {
            return Err(ProviderError::Unavailable(ProviderFailure::UpstreamRejected(status)));
        }
        match (access, refresh) {
            (Some(a), Some(t)) => {
                self.access_token = a;
                self.config.refresh_token = t;
                Ok(())
            },
            _ => Err(ProviderError::Unavailable(ProviderFailure::Decode)),
        }
    }

    /// Takes in the reply to a token exchange; `None` stands for a request
    /// that failed in transport.
    pub fn apply_token_response(&mut self, reply: Option<(u16, &str)>) -> (r: Result<
        (),
        ProviderError,
    >)
        ensures
            match token_outcome(reply_view(reply)) {
                Ok((a, t)) => r is Ok && tokens_rotated(*old(self), *final(self), a, t),
                Err(e) => r == Err::<(), ProviderError>(e) && *final(self) == *old(self),
            },
    {
        match reply {
            None => Err(ProviderError::Unavailable(ProviderFailure::Transport)),
            Some((status, body)) => {
                if 200 <= status && status <= 299 {
                    let access = member_str(body, "access_token");
                    let refresh = member_str(body, "refresh_token");
                    self.apply_token_reply(status, access, refresh)
                } else {
                    self.apply_token_reply(status, None, None)
                }
            },
        }
    }

    /// Takes in the reply to the storage-root lookup; `None` stands for a
    /// request whose every attempt failed in transport. On success the
    /// root's id is stored; otherwise nothing changes.
    pub fn apply_drive_response(&mut self, reply: Option<(u16, &str)>) -> (r: Result<
        (),
        ProviderError,
    >)
        ensures
            match drive_outcome(reply_view(reply)) {
                Ok(id) => r is Ok && drive_set(*old(self), *final(self), id),
                Err(e) => r == Err::<(), ProviderError>(e) && *final(self) == *old(self),
            },
    {
        match reply {
            None => Err(ProviderError::Unavailable(ProviderFailure::Transport)),
            Some((status, body)) => {
                if !(200 <= status && status <= 299) {
                    return Err(
                        ProviderError::Unavailable(ProviderFailure::UpstreamRejected(status)),
                    );
                }
                match member_str(body, "id") {
                    Some(id) => {
                        self.drive_id = id;
                        Ok(())
                    },
                    None => Err(ProviderError::Unavailable(ProviderFailure::Decode)),
                }
            },
        }
    }
}

/// `after` is `before` with both tokens replaced: access token `access`,
/// refresh token `refresh`; everything else as it was.
pub open spec fn tokens_rotated(
    before: MSGraphClient,
    after: MSGraphClient,
    access: Seq<char>,
    refresh: Seq<char>,
) -> bool {
    &&& after.config_spec() == (MSGraphConfig {
        refresh_token: after.config_spec().refresh_token,
        ..before.config_spec()
    })
    &&& after.config_spec().refresh_token@ == refresh
    &&& after.access_token_spec() == access
    &&& after.graph_api_spec() == before.graph_api_spec()
    &&& after.oauth_api_spec() == before.oauth_api_spec()
    &&& after.drive_id_spec() == before.drive_id_spec()
}

/// `after` is `before` with storage root `drive_id`; everything else as it
/// was.
pub open spec fn drive_set(before: MSGraphClient, after: MSGraphClient, drive_id: Seq<char>) -> bool {
    &&& after.config_spec() == before.config_spec()
    &&& after.access_token_spec() == before.access_token_spec()
    &&& after.graph_api_spec() == before.graph_api_spec()
    &&& after.oauth_api_spec() == before.oauth_api_spec()
    &&& after.drive_id_spec() == drive_id
}

/// A client as `MSGraphClient::new` sets it up for `config`.
pub open spec fn fresh_client(c: MSGraphClient, config: MSGraphConfig) -> bool {
    &&& c.config_spec() == config
    &&& c.graph_api_spec() == (if config.region@ == CHINA_REGION@ {
        CHINA_GRAPH_API@
    } else {
        GLOBAL_GRAPH_API@
    })
    &&& c.oauth_api_spec() == (if config.region@ == CHINA_REGION@ {
        CHINA_OAUTH_API@
    } else {
        GLOBAL_OAUTH_API@
    })
    &&& c.drive_id_spec() == Seq::<char>::empty()
    &&& c.access_token_spec() == Seq::<char>::empty()
}

} // verus!
