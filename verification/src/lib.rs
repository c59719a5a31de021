//! The rules of a benchmark that runs one workload over HTTP/3, HTTP/2 and gRPC.
//!
//! Sockets, TLS and clocks belong to the programs around this library. The
//! library holds what those programs decide: which bytes are sent, how a reply
//! is counted, which handler a path reaches, what each handler answers, and
//! how the results are worded.
//!
//! The two sides of each transport are state machines. A machine says what to
//! do next and is told what came of it; the program around it does the work.

pub mod buffer;
pub mod decimal;
pub mod endpoint;
pub mod feed;
pub mod grpc_client;
pub mod grpc_server;
pub mod http2_client;
pub mod http2_server;
pub mod http3_client;
pub mod http3_server;
pub mod message;
pub mod params;
pub mod payload;
pub mod plan;
pub mod report;
pub mod round_trip;
pub mod route;
pub mod tally;
pub mod text;
pub mod tls;
