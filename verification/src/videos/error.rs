//! The ways in which a lookup fails.

use serde_json::Error as JsonError;
use serde_urlencoded::ser::Error as QueryError;
use super::schema::{SchemaError, SchemaFault};
use vstd::prelude::*;

verus! {

/// Why a body is no answer.
#[derive(Debug)]
pub enum Diagnostic {
    /// The body is not a JSON document; the parser's own account of it.
    Syntax(JsonError),
    /// The body is a JSON document that does not fit the schema.
    Schema(SchemaError),
}

/// The mathematical value of a [`Diagnostic`]. The parser's account of a
/// syntax error is not part of it.
pub ghost enum DiagnosticView {
    Syntax,
    Schema(SchemaFault),
}

impl View for Diagnostic {
    type V = DiagnosticView;

    open spec fn view(&self) -> DiagnosticView {
        match self {
            Diagnostic::Syntax(_) => DiagnosticView::Syntax,
            Diagnostic::Schema(fault) => DiagnosticView::Schema(fault@),
        }
    }
}

/// The failure of a lookup.
#[derive(Debug)]
#[allow(inconsistent_fields)]
pub enum Error {
    /// The transport failed; `string` is its message.
    Connection { string: String },
    /// The body that arrived is no answer; `string` is the body.
    Deserialization { string: String, source: Diagnostic },
    /// The query could not be written.
    Serialization { source: QueryError },
}

/// The mathematical value of an [`Error`]. The encoder's account of a
/// failure to write the query is not part of it.
pub ghost enum ErrorView {
    Connection { string: Seq<char> },
    Deserialization { string: Seq<char>, source: DiagnosticView },
    Serialization,
}

impl View for Error {
    type V = ErrorView;

    open spec fn view(&self) -> ErrorView {
        match self {
            Error::Connection { string } => ErrorView::Connection { string: string@ },
            Error::Deserialization { string, source } => ErrorView::Deserialization {
                string: string@,
                source: source@,
            },
            Error::Serialization { source } => ErrorView::Serialization,
        }
    }
}

impl DeepView for Error {
    type V = ErrorView;

    open spec fn deep_view(&self) -> ErrorView {
        self@
    }
}

} // verus!
