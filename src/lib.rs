//! A typed client core for a remote, eventually consistent key-value store.
//!
//! The library builds put and list requests, encodes their wire options,
//! decodes what the store replies, and follows list cursors. The round trips
//! themselves are made by the host that binds the store.
pub mod builder;
pub mod error;
pub mod json;
pub mod reply;
pub mod response;
pub mod value;

pub use builder::{ListOptionsBuilder, ListOptionsView, PutOptionsBuilder, PutOptionsView};
pub use error::KvError;
pub use reply::{decode_ack, decode_get, decode_get_with_metadata, resolve_binding, MetadataRead};
pub use response::{Key, ListResponse, PageView};
pub use value::{json_payload_of, str_payload, KvValue};
