//! The shapes of requests and replies of the web API, and the small enums
//! they carry.

pub mod app;
pub mod app_subscribe;
pub mod article;
pub mod email;
pub mod game_article;
pub mod mod_article;
pub mod notice;
pub mod notification;
pub mod permission;
pub mod resource;
pub mod role;
pub mod tag;
pub mod token;
pub mod user;
