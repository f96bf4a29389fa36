//! The stores that hold times, posts, tags and todos.

use vstd::prelude::*;

pub mod table;
pub mod ram;
pub mod local;
pub mod remote;

verus! {

/// The error of a store operation that a backend does not offer.
#[derive(Debug)]
pub enum StoreError {
    NotSupported,
}

/// Which backend keeps the data: memory, a local key/value database file,
/// or a remote gRPC server.
#[derive(PartialEq, Eq, Default, Debug, Clone)]
pub enum StoreType {
    #[default]
    Memory,
    Local(String),
    Grpc(String),
}

} // verus!
