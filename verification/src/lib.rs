//! An edge rule engine.
//!
//! Rules are drawn as a graph of typed nodes and edges. For each request the
//! engine walks the graph from its `request` node and decides whether the
//! request is routed to a backend, blocked, redirected or allowed.
//!
//! - [`types`]: the graph model and the payload of each kind of node.
//! - [`json`]: JSON documents as plain values, and how record fields are read.
//! - [`loader`]: unpacking a graph from its stored form.
//! - [`request`]: what the engine reads of a request, and the field resolver.
//! - [`condition`]: the operators of conditions and the logic of rule groups.
//! - [`rate_limit`]: the rate limit policy.
//! - [`interp`]: the interpreter.
//! - [`backend`]: the descriptor by which the transport reaches a backend.
//! - [`auth`]: the signed header for backends that hold a secret.
//! - [`response`]: the choices behind the host's response.
//! - [`text`]: the text operations the others share.
//!
//! The engine does no input or output. The host reads the configuration
//! store, performs lookups, compares numbers, calls the rate service and
//! talks to backends; it hands the engine plain values and acts on the plain
//! values it gets back.
//!
//! Every function is verified against its contract, but for the few that call
//! into the standard library or another crate: base64, gzip, UTF-8 and JSON
//! text in [`loader`]; regular expressions and address parsing in
//! [`condition`]; HMAC-SHA256 and hexadecimal text in [`auth`]; string
//! comparison and Unicode properties in [`text`]. Their contracts are taken on
//! trust, and each says in its documentation what it claims.

pub mod auth;
pub mod backend;
pub mod condition;
pub mod interp;
pub mod json;
pub mod loader;
pub mod rate_limit;
pub mod request;
pub mod response;
pub mod text;
pub mod types;

pub use interp::{GraphInterpreter, GraphResult, HeaderMod};
pub use loader::load_graph_from_store;
pub use types::BackendNodeData;
