//! The errors of building a package.

use vstd::prelude::*;
use crate::text::{append, append_str, append_string, decimal_i32, signed_decimal, string_of};

verus! {

/// Why a build failed.
#[derive(Debug, Clone)]
pub enum BuildError {
    Parse(String),
    MissingField(String),
    BuildFailed(i32),
    EmptyDestdir,
    Pack(String),
    Sign(String),
    Sandbox(String),
    /// An I/O error, by its message.
    Io(String),
    /// Any other error, by its message.
    Anyhow(String),
}

/// The plain value of a `BuildError`.
pub enum BuildErrorView {
    Parse(Seq<char>),
    MissingField(Seq<char>),
    BuildFailed(i32),
    EmptyDestdir,
    Pack(Seq<char>),
    Sign(Seq<char>),
    Sandbox(Seq<char>),
    Io(Seq<char>),
    Anyhow(Seq<char>),
}

impl View for BuildError {
    type V = BuildErrorView;

    open spec fn view(&self) -> BuildErrorView {
        match self {
            BuildError::Parse(s) => BuildErrorView::Parse(s@),
            BuildError::MissingField(s) => BuildErrorView::MissingField(s@),
            BuildError::BuildFailed(c) => BuildErrorView::BuildFailed(*c),
            BuildError::EmptyDestdir => BuildErrorView::EmptyDestdir,
            BuildError::Pack(s) => BuildErrorView::Pack(s@),
            BuildError::Sign(s) => BuildErrorView::Sign(s@),
            BuildError::Sandbox(s) => BuildErrorView::Sandbox(s@),
            BuildError::Io(s) => BuildErrorView::Io(s@),
            BuildError::Anyhow(s) => BuildErrorView::Anyhow(s@),
        }
    }
}

/// The text shown for an error.
pub open spec fn build_error_message(e: BuildErrorView) -> Seq<char> {
    match e {
        BuildErrorView::Parse(s) => "PKGBUILD.toml parse error: "@ + s,
        BuildErrorView::MissingField(s) => "missing required field in PKGBUILD.toml: "@ + s,
        BuildErrorView::BuildFailed(c) => "build script exited with status "@ + signed_decimal(c as int),
        BuildErrorView::EmptyDestdir => "DESTDIR is empty after build — nothing to package"@,
        BuildErrorView::Pack(s) => "packing .fpkg failed: "@ + s,
        BuildErrorView::Sign(s) => "signing failed: "@ + s,
        BuildErrorView::Sandbox(s) => "sandbox error: "@ + s,
        BuildErrorView::Io(s) => s,
        BuildErrorView::Anyhow(s) => s,
    }
}

impl BuildError {
    /// The text shown for this error.
    pub fn message(&self) -> (res: String)
        ensures
            res@ == build_error_message(self@),
    {
        let mut out: Vec<char> = Vec::new();
        match self {
            BuildError::Parse(s) => {
                append_str(&mut out, "PKGBUILD.toml parse error: ");
                append_string(&mut out, s);
            },
            BuildError::MissingField(s) => {
                append_str(&mut out, "missing required field in PKGBUILD.toml: ");
                append_string(&mut out, s);
            },
            BuildError::BuildFailed(c) => {
                append_str(&mut out, "build script exited with status ");
                append(&mut out, &decimal_i32(*c));
            },
            BuildError::EmptyDestdir => {
                append_str(&mut out, "DESTDIR is empty after build — nothing to package");
            },
            BuildError::Pack(s) => {
                append_str(&mut out, "packing .fpkg failed: ");
                append_string(&mut out, s);
            },
            BuildError::Sign(s) => {
                append_str(&mut out, "signing failed: ");
                append_string(&mut out, s);
            },
            BuildError::Sandbox(s) => {
                append_str(&mut out, "sandbox error: ");
                append_string(&mut out, s);
            },
            BuildError::Io(s) => {
                append_string(&mut out, s);
            },
            BuildError::Anyhow(s) => {
                append_string(&mut out, s);
            },
        }
        string_of(&out)
    }
}

} // verus!
