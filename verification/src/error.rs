//! The errors that compiling a schema can end in.

use vstd::prelude::*;

verus! {

/// A failure of schema compilation. Each aborts the compilation as a whole.
#[derive(Debug, PartialEq, Eq)]
pub enum CompileError {
    /// An embed names a struct that the schema does not define.
    UnresolvedEmbed(String),
    /// Embeds were still left after the maximum number of expansion rounds:
    /// an embed cycle, or a chain deeper than the limit.
    EmbedDepthExceeded,
    /// A user-defined type name that no struct or enum of the schema has.
    UnresolvedTypeReference(String),
    /// The query type of a route is not a user-defined type.
    QueryNotUserDefined,
    /// A map's key type is not string-like.
    MapKeyNotStringLike,
    /// Two variables of one route share a name.
    DuplicateRouteVariable(String),
}

/// The mathematical value of a `CompileError`.
pub enum CompileErrorModel {
    UnresolvedEmbed(Seq<char>),
    EmbedDepthExceeded,
    UnresolvedTypeReference(Seq<char>),
    QueryNotUserDefined,
    MapKeyNotStringLike,
    DuplicateRouteVariable(Seq<char>),
}

impl View for CompileError {
    type V = CompileErrorModel;

    open spec fn view(&self) -> CompileErrorModel {
        match self {
            CompileError::UnresolvedEmbed(n) => CompileErrorModel::UnresolvedEmbed(n@),
            CompileError::EmbedDepthExceeded => CompileErrorModel::EmbedDepthExceeded,
            CompileError::UnresolvedTypeReference(n) => CompileErrorModel::UnresolvedTypeReference(
                n@,
            ),
            CompileError::QueryNotUserDefined => CompileErrorModel::QueryNotUserDefined,
            CompileError::MapKeyNotStringLike => CompileErrorModel::MapKeyNotStringLike,
            CompileError::DuplicateRouteVariable(n) => CompileErrorModel::DuplicateRouteVariable(
                n@,
            ),
        }
    }
}

} // verus!
