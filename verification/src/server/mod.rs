//! The TimesMan server: its configuration, its authentication rules, and
//! the handling of the requests of its gRPC front.

use vstd::prelude::*;

pub mod auth;
pub mod config;
pub mod grpc;
pub mod http;

verus! {

/// The gRPC front of the server.
pub struct GrpcServer {}

/// The HTTP front of the server.
pub struct HttpServer {}

} // verus!
