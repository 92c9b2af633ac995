pub mod client;
pub mod error;
pub mod json;
pub mod request;
pub mod response;
pub mod session;
pub mod torrent;

pub use crate::error::ClientError;
pub use crate::client::Client;
