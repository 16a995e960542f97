//! A personal data vault: connectors turn outside records into canonical items,
//! and a storage engine keeps them in an embedded database.
pub mod external;
pub mod item;
pub mod codec;
pub mod storage;
pub mod connector;
pub mod oauth;
