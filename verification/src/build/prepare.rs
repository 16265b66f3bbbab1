//! The build environment: the directories and script a build works in, and the
//! sources it downloads.

use vstd::prelude::*;
use crate::text::{append_str, append_string, chars_of, split_char, split_char_v, starts_with, starts_with_v, string_of};
use crate::build::checksums::{blake3_hex, hex_digest};
use crate::build::error::{BuildError, BuildErrorView};
use crate::transaction::paths::{join, join_path};

verus! {

/// The directories and script of one build.
#[derive(Debug, Clone)]
pub struct BuildEnv {
    pub build_dir: String,
    pub src_dir: String,
    pub destdir: String,
    pub script_path: String,
}

impl BuildEnv {
    /// The layout of a build in `workdir`: `build/`, `src/`, `pkg/` (the destination
    /// directory) and the script `build.sh`.
    pub fn in_workdir(workdir: &String) -> (res: BuildEnv)
        ensures
            res.build_dir@ == join_path(workdir@, "build"@),
            res.src_dir@ == join_path(workdir@, "src"@),
            res.destdir@ == join_path(workdir@, "pkg"@),
            res.script_path@ == join_path(workdir@, "build.sh"@),
    {
        BuildEnv {
            build_dir: join(workdir, "build"),
            src_dir: join(workdir, "src"),
            destdir: join(workdir, "pkg"),
            script_path: join(workdir, "build.sh"),
        }
    }
}

/// The file a source is saved as: the text after the last `/` of its URL.
pub open spec fn source_name(url: Seq<char>) -> Seq<char> {
    split_char(url, '/').last()
}

/// The file a source is saved as.
pub fn source_file_name(url: &str) -> (res: String)
    ensures
        res@ == source_name(url@),
{
    let u = chars_of(url);
    let parts = split_char_v(&u, '/');
    proof {
        crate::text::lemma_split_nonempty(url@, '/');
    }
    string_of(&parts[parts.len() - 1])
}

/// The error for a source that could not be downloaded.
pub fn curl_failed(url: &str) -> (res: BuildError)
    ensures
        res@ == BuildErrorView::Anyhow("curl failed for "@ + url@),
{
    let mut out = chars_of("curl failed for ");
    append_str(&mut out, url);
    BuildError::Anyhow(string_of(&out))
}

/// Whether a downloaded source matches its expected checksum: the hexadecimal BLAKE3
/// digest of its bytes must start with `expected`.
pub open spec fn digest_check(data: Seq<u8>, expected: Seq<char>) -> Result<(), BuildErrorView> {
    if starts_with(blake3_hex(data), expected) {
        Ok(())
    } else {
        Err(BuildErrorView::Anyhow(
            "checksum mismatch: expected "@ + expected + ", got "@ + blake3_hex(data),
        ))
    }
}

/// Checks a downloaded source against its expected checksum.
pub fn verify_sha256(data: &[u8], expected: &str) -> (res: Result<(), BuildError>)
    ensures
        match res {
            Ok(()) => digest_check(data@, expected@) is Ok,
            Err(e) => digest_check(data@, expected@) == Err::<(), BuildErrorView>(e@),
        },
{
    let actual = hex_digest(data);
    let a = chars_of(actual.as_str());
    let e = chars_of(expected);
    if starts_with_v(&a, &e) {
        Ok(())
    } else {
        let mut out = chars_of("checksum mismatch: expected ");
        append_str(&mut out, expected);
        append_str(&mut out, ", got ");
        append_string(&mut out, &actual);
        Err(BuildError::Anyhow(string_of(&out)))
    }
}

} // verus!
