//! Errors of the conversion of foreign packages.

use vstd::prelude::*;
use crate::text::{append_str, append_string, string_of};

verus! {

/// Why a foreign package could not be converted.
#[derive(Debug, Clone)]
pub enum CompatError {
    UnsupportedFormat(String),
    MalformedField { field: String, reason: String },
    MissingField(String),
    Archive(String),
    Rpm(String),
    Io(String),
    Anyhow(String),
}

/// The plain value of a `CompatError`.
pub enum CompatErrorView {
    UnsupportedFormat(Seq<char>),
    MalformedField { field: Seq<char>, reason: Seq<char> },
    MissingField(Seq<char>),
    Archive(Seq<char>),
    Rpm(Seq<char>),
    Io(Seq<char>),
    Anyhow(Seq<char>),
}

impl View for CompatError {
    type V = CompatErrorView;

    open spec fn view(&self) -> CompatErrorView {
        match self {
            CompatError::UnsupportedFormat(s) => CompatErrorView::UnsupportedFormat(s@),
            CompatError::MalformedField { field, reason } => CompatErrorView::MalformedField {
                field: field@,
                reason: reason@,
            },
            CompatError::MissingField(s) => CompatErrorView::MissingField(s@),
            CompatError::Archive(s) => CompatErrorView::Archive(s@),
            CompatError::Rpm(s) => CompatErrorView::Rpm(s@),
            CompatError::Io(s) => CompatErrorView::Io(s@),
            CompatError::Anyhow(s) => CompatErrorView::Anyhow(s@),
        }
    }
}

/// The text shown for an error.
pub open spec fn compat_error_message(e: CompatErrorView) -> Seq<char> {
    match e {
        CompatErrorView::UnsupportedFormat(s) => "unsupported format: "@ + s,
        CompatErrorView::MalformedField { field, reason } => "malformed control field '"@ + field
            + "': "@ + reason,
        CompatErrorView::MissingField(s) => "missing required field: "@ + s,
        CompatErrorView::Archive(s) => "ar/tar extraction failed: "@ + s,
        CompatErrorView::Rpm(s) => "rpm parse error: "@ + s,
        CompatErrorView::Io(s) => s,
        CompatErrorView::Anyhow(s) => s,
    }
}

impl CompatError {
    /// The text shown for this error.
    pub fn message(&self) -> (res: String)
        ensures
            res@ == compat_error_message(self@),
    {
        let mut out: Vec<char> = Vec::new();
        match self {
            CompatError::UnsupportedFormat(s) => {
                append_str(&mut out, "unsupported format: ");
                append_string(&mut out, s);
            },
            CompatError::MalformedField { field, reason } => {
                append_str(&mut out, "malformed control field '");
                append_string(&mut out, field);
                append_str(&mut out, "': ");
                append_string(&mut out, reason);
            },
            CompatError::MissingField(s) => {
                append_str(&mut out, "missing required field: ");
                append_string(&mut out, s);
            },
            CompatError::Archive(s) => {
                append_str(&mut out, "ar/tar extraction failed: ");
                append_string(&mut out, s);
            },
            CompatError::Rpm(s) => {
                append_str(&mut out, "rpm parse error: ");
                append_string(&mut out, s);
            },
            CompatError::Io(s) => {
                append_string(&mut out, s);
            },
            CompatError::Anyhow(s) => {
                append_string(&mut out, s);
            },
        }
        string_of(&out)
    }
}

} // verus!
