use std::collections::HashSet;

use igame::config::MSGraphConfig;
use igame::group::{ClientGroup, ProviderGroup};
use igame::pool::ResourceProvider;
use igame::provider::{
    classify_link_reply, MSGraphClient, ProviderError, ProviderFailure, CHINA_GRAPH_API,
    GLOBAL_GRAPH_API, GLOBAL_OAUTH_API,
};

fn config(id: &str, region: &str) -> MSGraphConfig {
    MSGraphConfig {
        id: id.to_string(),
        connect_timeout: 5,
        whole_timeout: 20,
        pool_idle_timeout: 90,
        group: ProviderGroup::Normal,
        region: region.to_string(),
        client_id: "cid".to_string(),
        client_secret: "SECRET-REDACTED".to_string(),
        drive_url: "drives/abc".to_string(),
        redirect_url: "http://localhost/cb".to_string(),
        refresh_token: "r0".to_string(),
    }
}

/// An upstream token endpoint that honours each refresh token once.
struct TokenServer {
    spent: HashSet<String>,
    issued: u32,
}

impl TokenServer {
    fn exchange(&mut self, form: &[(String, String)]) -> (u16, String) {
        let token = form.iter().find(|(k, _)| k == "refresh_token").unwrap().1.clone();
        if !self.spent.insert(token) {
            return (400, "{\"error\":\"invalid_grant\"}".to_string());
        }
        self.issued += 1;
        (
            200,
            format!(
                "{{\"access_token\":\"a{}\",\"refresh_token\":\"r{}\",\"expires_in\":3600}}",
                self.issued, self.issued
            ),
        )
    }
}

#[test]
fn region_selects_api_bases() {
    let china = MSGraphClient::new(config("p", "china"));
    assert_eq!(china.drive_request_url(), format!("{}drives/abc", CHINA_GRAPH_API));
    assert_eq!(china.token_request_url(), "https://login.chinacloudapi.cn/common/oauth2/v2.0/token");
    let global = MSGraphClient::new(config("p", "global"));
    assert_eq!(global.drive_request_url(), "https://graph.microsoft.com/v1.0/drives/abc");
    assert_eq!(global.token_request_url(), format!("{}token", GLOBAL_OAUTH_API));
    let other = MSGraphClient::new(config("p", "China"));
    assert!(other.drive_request_url().starts_with(GLOBAL_GRAPH_API));
    assert_eq!(global.bearer(), "Bearer ");
    assert_eq!(global.drive_id(), "");
}

#[test]
fn token_exchange_rotates_refresh_token() {
    let mut server = TokenServer { spent: HashSet::new(), issued: 0 };
    let mut client = MSGraphClient::new(config("p", "global"));
    let form = client.token_request_form();
    assert_eq!(form[0], ("client_id".to_string(), "cid".to_string()));
    assert_eq!(form[1], ("grant_type".to_string(), "refresh_token".to_string()));
    assert_eq!(form[2], ("refresh_token".to_string(), "r0".to_string()));
    assert_eq!(form[3], ("redirect_uri".to_string(), "http://localhost/cb".to_string()));
    assert_eq!(form[4], ("client_secret".to_string(), "SECRET-REDACTED".to_string()));

    let (status, body) = server.exchange(&form);
    assert_eq!(client.apply_token_response(Some((status, body.as_str()))), Ok(()));
    assert_eq!(client.config().refresh_token, "r1");
    assert_eq!(client.bearer(), "Bearer a1");

    // Replaying the spent token fails upstream; the stored one goes through.
    let (replay_status, _) = server.exchange(&form);
    assert_eq!(replay_status, 400);
    let (status, body) = server.exchange(&client.token_request_form());
    assert_eq!(status, 200);
    assert_eq!(client.apply_token_response(Some((status, body.as_str()))), Ok(()));
    assert_eq!(client.config().refresh_token, "r2");
}

#[test]
fn failed_token_exchange_changes_nothing() {
    let mut client = MSGraphClient::new(config("p", "global"));
    assert_eq!(
        client.apply_token_response(None),
        Err(ProviderError::Unavailable(ProviderFailure::Transport))
    );
    assert_eq!(
        client.apply_token_response(Some((401, "{\"access_token\":\"x\",\"refresh_token\":\"y\"}"))),
        Err(ProviderError::Unavailable(ProviderFailure::UpstreamRejected(401)))
    );
    assert_eq!(
        client.apply_token_response(Some((200, "{\"access_token\":\"x\"}"))),
        Err(ProviderError::Unavailable(ProviderFailure::Decode))
    );
    assert_eq!(client.config().refresh_token, "r0");
    assert_eq!(client.bearer(), "Bearer ");
    assert_eq!(
        client.apply_token_reply(200, Some("a".to_string()), Some("b".to_string())),
        Ok(())
    );
    assert_eq!(client.config().refresh_token, "b");
    assert_eq!(
        client.apply_token_reply(200, Some("c".to_string()), None),
        Err(ProviderError::Unavailable(ProviderFailure::Decode))
    );
    assert_eq!(client.bearer(), "Bearer a");
}

#[test]
fn storage_root_lookup_sets_drive_and_link_url() {
    let mut client = MSGraphClient::new(config("p", "global"));
    assert_eq!(
        client.apply_drive_response(Some((500, "{\"id\":\"x\"}"))),
        Err(ProviderError::Unavailable(ProviderFailure::UpstreamRejected(500)))
    );
    assert_eq!(
        client.apply_drive_response(Some((200, "[]"))),
        Err(ProviderError::Unavailable(ProviderFailure::Decode))
    );
    assert_eq!(client.drive_id(), "");
    assert_eq!(client.apply_drive_response(Some((200, "{\"id\":\"root42\"}"))), Ok(()));
    assert_eq!(client.drive_id(), "root42");
    assert_eq!(
        client.link_request_url("/games/a.zip"),
        "https://graph.microsoft.com/v1.0/drives/root42/root:/games/a.zip"
    );
}

#[test]
fn pool_applies_token_reply_to_one_provider() {
    let configs = vec![config("p", "global"), config("q", "global")];
    let mut pool = ResourceProvider::new_at(&configs, 0);
    let reply = "{\"access_token\":\"A\",\"refresh_token\":\"R\"}";
    assert_eq!(pool.apply_token_response("q", Some((200, reply))), Ok(()));
    assert_eq!(pool.client("q").unwrap().config().refresh_token, "R");
    assert_eq!(pool.client("p").unwrap().config().refresh_token, "r0");
    assert_eq!(
        pool.apply_token_response("zzz", Some((200, reply))),
        Err(ProviderError::Unavailable(ProviderFailure::UnknownProvider))
    );
    assert_eq!(pool.apply_drive_response("q", Some((200, "{\"id\":\"d9\"}"))), Ok(()));
    assert_eq!(pool.client("q").unwrap().drive_id(), "d9");
    assert_eq!(pool.client("q").unwrap().bearer(), "Bearer A");
}

#[test]
fn link_reply_decision() {
    assert_eq!(classify_link_reply(200, Some("u".to_string())), Ok("u".to_string()));
    assert_eq!(
        classify_link_reply(299, None),
        Err(ProviderError::Unavailable(ProviderFailure::Decode))
    );
    assert_eq!(classify_link_reply(400, Some("u".to_string())), Err(ProviderError::ResourceNotFound));
    assert_eq!(
        classify_link_reply(302, Some("u".to_string())),
        Err(ProviderError::Unavailable(ProviderFailure::UpstreamRejected(302)))
    );
}

#[test]
fn group_names_and_indices() {
    assert_eq!(ClientGroup::Normal.to_index(), 0);
    assert_eq!(ClientGroup::Fast.to_index(), 1);
    assert_eq!(ClientGroup::Fast.name(), "fast");
    assert_eq!(ProviderGroup::Normal.to_int2(), 0);
    assert_eq!(ProviderGroup::Fast.to_int2(), 1);
    assert_eq!(ProviderGroup::Normal.name(), "normal");
}
