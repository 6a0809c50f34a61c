use vstd::prelude::*;

use crate::group::ProviderGroup;

verus! {

/// Everything the service is configured with; the file it was read from is
/// kept so that a snapshot can be written back to it.
#[derive(Debug, Clone)]
pub struct Config {
    pub app: AppConfig,
    pub jwt: JWTConfig,
    pub email: EmailConfig,
    pub pgsql: SQLConfig,
    pub msgraph: Vec<MSGraphConfig>,
    pub file_path: String,
}

#[derive(Debug, Clone)]
pub struct AppConfig {
    pub mode: String,
    pub addr: String,
    pub thread: usize,
    pub log_level: String,
    pub log_format: String,
}

#[derive(Debug, Clone)]
pub struct EmailConfig {
    pub addr: String,
    pub username: String,
    pub password: String,
    pub sender: String,
    pub root_cert: String,
    pub idle_timeout: u64,
    pub min_idle: u32,
    pub max_size: u32,
}

#[derive(Debug, Clone)]
pub struct JWTConfig {
    pub token_secret: String,
    pub access_token_expire: u64,
    pub refresh_token_expire: u64,
}

#[derive(Debug, Clone)]
pub struct SQLConfig {
    pub mode: String,
    pub host: String,
    pub port: u16,
    pub user: String,
    pub password: String,
    pub database_name: String,
    pub application_name: String,
    pub ssl: bool,
    pub root_cert: String,
    pub connect_timeout: u64,
    pub keepalives_idle: u64,
}

/// One storage-API account. `refresh_token` rotates on every successful
/// token exchange; the rest stays as configured.
#[derive(Debug, Clone)]
pub struct MSGraphConfig {
    pub id: String,
    pub connect_timeout: u64,
    pub whole_timeout: u64,
    pub pool_idle_timeout: u64,
    pub group: ProviderGroup,
    pub region: String,
    pub client_id: String,
    pub client_secret: String,
    pub drive_url: String,
    pub redirect_url: String,
    pub refresh_token: String,
}

impl MSGraphConfig {
    /// A field-for-field copy.
    pub fn snapshot(&self) -> (r: Self)
        ensures
            r == *self,
    {
        MSGraphConfig {
            id: self.id.clone(),
            connect_timeout: self.connect_timeout,
            whole_timeout: self.whole_timeout,
            pool_idle_timeout: self.pool_idle_timeout,
            group: self.group,
            region: self.region.clone(),
            client_id: self.client_id.clone(),
            client_secret: self.client_secret.clone(),
            drive_url: self.drive_url.clone(),
            redirect_url: self.redirect_url.clone(),
            refresh_token: self.refresh_token.clone(),
        }
    }
}

} // verus!
