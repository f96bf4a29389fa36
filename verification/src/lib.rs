//! TimesMan: a personal log ("times") keeper.
//!
//! A *times* is a titled topic under which short posts, tags and todos are
//! recorded.  The library holds the data model, the in-memory store, the
//! metadata bookkeeping of the key/value store, the wire conversions of the
//! gRPC messages, the request handling of the server, the authentication
//! rules, and the decision logic of the user interface.

pub mod types;
pub mod text;
pub mod time;
pub mod bstore;
pub mod grpc;
pub mod server;
pub mod store;
pub mod client;
