//! The `PKGBUILD.toml` description of a package to build.

use vstd::prelude::*;
use crate::text::{append, append_str, append_string, decimal, decimal_v, owned, string_of, trim, trim_v, chars_of};
use crate::build::error::{BuildError, BuildErrorView};

verus! {

/// A parsed `PKGBUILD.toml`.
#[derive(Debug, Clone)]
pub struct PkgBuild {
    pub package: PackageMeta,
    pub build: BuildSection,
    pub runtime: Option<RuntimeSection>,
}

/// The `[package]` table.
#[derive(Debug, Clone)]
pub struct PackageMeta {
    pub name: String,
    pub version: String,
    pub release: u32,
    pub arch: Vec<String>,
    pub license: String,
    pub summary: Option<String>,
    pub description: Option<String>,
    pub homepage: Option<String>,
    pub maintainer: Option<String>,
    pub source: Option<Vec<SourceEntry>>,
}

/// A source to download before building.
#[derive(Debug, Clone)]
pub struct SourceEntry {
    pub url: String,
    pub sha256: Option<String>,
}

/// The `[build]` table.
#[derive(Debug, Clone)]
pub struct BuildSection {
    pub build_depends: Option<Vec<String>>,
    pub script: String,
    pub package_install: Option<String>,
}

/// The `[runtime]` table.
#[derive(Debug, Clone)]
pub struct RuntimeSection {
    pub requires: Option<Vec<RuntimeDep>>,
    pub suggests: Option<Vec<String>>,
    pub conflicts: Option<Vec<String>>,
    pub provides: Option<Vec<String>>,
}

/// A build-time dependency.
#[derive(Debug, Clone)]
pub struct BuildDep {
    pub name: String,
    pub version: Option<String>,
}

/// A run-time dependency.
#[derive(Debug, Clone)]
pub struct RuntimeDep {
    pub name: String,
    pub version: Option<String>,
    pub optional: Option<bool>,
}

/// Whether a `PKGBUILD.toml` has what a build needs: a name, a version, at least one
/// architecture and a build script that is not blank, checked in that order.
pub open spec fn validation(pb: PkgBuild) -> Result<(), BuildErrorView> {
    if pb.package.name@.len() == 0 {
        Err(BuildErrorView::MissingField("package.name"@))
    } else if pb.package.version@.len() == 0 {
        Err(BuildErrorView::MissingField("package.version"@))
    } else if pb.package.arch@.len() == 0 {
        Err(BuildErrorView::MissingField("package.arch"@))
    } else if trim(pb.build.script@).len() == 0 {
        Err(BuildErrorView::MissingField("build.script"@))
    } else {
        Ok(())
    }
}

/// The file name of the built package: `<name>-<version>-<release>.<arch>.fpkg`, with
/// the first architecture, or `any` without one.
pub open spec fn fpkg_file_name(pb: PkgBuild) -> Seq<char> {
    pb.package.name@ + "-"@ + pb.package.version@ + "-"@ + decimal(pb.package.release as nat) + "."@
        + (if pb.package.arch@.len() > 0 {
        pb.package.arch@[0]@
    } else {
        "any"@
    }) + ".fpkg"@
}

impl PkgBuild {
    /// Checks that the package can be built (see `validation`).
    pub fn validate(&self) -> (res: Result<(), BuildError>)
        ensures
            match res {
                Ok(()) => validation(*self) is Ok,
                Err(e) => validation(*self) == Err::<(), BuildErrorView>(e@),
            },
    {
        if self.package.name.as_str().is_empty() {
            return Err(BuildError::MissingField(owned("package.name")));
        }
        if self.package.version.as_str().is_empty() {
            return Err(BuildError::MissingField(owned("package.version")));
        }
        if self.package.arch.len() == 0 {
            return Err(BuildError::MissingField(owned("package.arch")));
        }
        let sc = chars_of(self.build.script.as_str());
        let t = trim_v(&sc);
        if t.len() == 0 {
            return Err(BuildError::MissingField(owned("build.script")));
        }
        Ok(())
    }

    /// The file name of the built package.
    pub fn fpkg_name(&self) -> (res: String)
        ensures
            res@ == fpkg_file_name(*self),
    {
        let mut out: Vec<char> = Vec::new();
        append_string(&mut out, &self.package.name);
        append_str(&mut out, "-");
        append_string(&mut out, &self.package.version);
        append_str(&mut out, "-");
        append(&mut out, &decimal_v(self.package.release as u64));
        append_str(&mut out, ".");
        if self.package.arch.len() > 0 {
            append_string(&mut out, &self.package.arch[0]);
        } else {
            append_str(&mut out, "any");
        }
        append_str(&mut out, ".fpkg");
        string_of(&out)
    }
}

} // verus!
