//! Session establishment for the campus portals: the handshake logic that turns
//! a username and a password into a session credential, as a verified library.

pub mod encoder;
pub mod text;
pub mod error;
pub mod cookies;
pub mod scrape;
pub mod ticket;
pub mod form;
pub mod json;
pub mod utils;
pub mod life;
pub mod ucloud;
pub mod profile;
pub mod handshake;
pub mod signin;
