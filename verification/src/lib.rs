//! A compiler core for a small interface-definition language: the syntax tree
//! of a schema, the expansion of embedded structs, the compilation of service
//! routes into URL patterns and type bindings, and the request router that
//! matches live requests against those routes.

pub mod ast;
pub mod embeds;
pub mod error;
pub mod embed_laws;
pub mod routes;
pub mod compile;
pub mod matcher;
pub mod regexset_map;
pub mod server;
pub mod deser_helpers;
pub mod dispatcher;
pub mod handler;
pub mod parser;
pub mod wire;
pub mod wire_decode;
pub mod wire_laws;
pub mod wire_text;
pub mod query;
pub mod embed_depth;
