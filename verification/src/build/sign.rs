//! Signing a built `.fpkg` with the `fpkg-sign` tool.

use vstd::prelude::*;
use crate::text::{append, append_str, chars_of, owned, signed_decimal, string_of, decimal_i32};
use crate::build::error::{BuildError, BuildErrorView};
use crate::build::runner::{arg_texts, CommandSpec};

verus! {

/// The command that signs `fpkg_path` with the signer found at `signer`, with the key
/// at `key` when one is given.
pub fn sign_command(signer: &str, fpkg_path: &str, key: Option<&str>) -> (res: CommandSpec)
    ensures
        res.program@ == signer@,
        arg_texts(res.args@) == (match key {
            Some(k) => seq![fpkg_path@, "--key"@, k@],
            None => seq![fpkg_path@],
        }),
        res.envs@.len() == 0,
        res.current_dir is None,
{
    let mut args: Vec<String> = Vec::new();
    args.push(owned(fpkg_path));
    match key {
        Some(k) => {
            args.push(owned("--key"));
            args.push(owned(k));
            assert(arg_texts(args@) =~= seq![fpkg_path@, "--key"@, k@]);
        },
        None => {
            assert(arg_texts(args@) =~= seq![fpkg_path@]);
        },
    }
    CommandSpec { program: owned(signer), args, envs: Vec::new(), current_dir: None }
}

/// The error when no signer is on the `PATH`.
pub fn signer_missing() -> (res: BuildError)
    ensures
        res@ == BuildErrorView::Sign("fpkg-sign not found in PATH"@),
{
    BuildError::Sign(owned("fpkg-sign not found in PATH"))
}

/// The text of an optional exit code, as `{:?}` shows it: `Some(<code>)` or `None`.
pub open spec fn exit_code_text(code: Option<i32>) -> Seq<char> {
    match code {
        Some(c) => "Some("@ + signed_decimal(c as int) + ")"@,
        None => "None"@,
    }
}

/// What the signer's exit means: success, or a signing error with its exit code.
pub fn sign_exited(success: bool, code: Option<i32>) -> (res: Result<(), BuildError>)
    ensures
        success <==> res is Ok,
        res matches Err(e) ==> e@ == BuildErrorView::Sign("fpkg-sign exited with "@ + exit_code_text(code)),
{
    if success {
        return Ok(());
    }
    let mut out = chars_of("fpkg-sign exited with ");
    match code {
        Some(c) => {
            append_str(&mut out, "Some(");
            append(&mut out, &decimal_i32(c));
            append_str(&mut out, ")");
        },
        None => append_str(&mut out, "None"),
    }
    assert(out@ =~= "fpkg-sign exited with "@ + exit_code_text(code));
    Err(BuildError::Sign(string_of(&out)))
}

// ------------------------------------------------------------------ checking a signature

/// Whether `zip::ZipArchive::new` reads the bytes `data` as a zip archive and its
/// `by_name` then opens the entry `name`.
pub uninterp spec fn zip_entry_opens(data: Seq<u8>, name: Seq<char>) -> bool;

/// Reads `data` with `zip::ZipArchive::new` and looks `name` up with `by_name`; the
/// result is the named `zip_entry_opens` of the bytes and the name: `false` when the
/// archive cannot be read or the entry cannot be opened.
#[verifier::external_body]
fn zip_has_entry(data: &[u8], name: &str) -> (res: bool)
    ensures
        res == zip_entry_opens(data@, name@),
{
    match zip::ZipArchive::new(std::io::Cursor::new(data)) {
        Ok(mut z) => z.by_name(name).is_ok(),
        Err(_) => false,
    }
}

/// The name of the signature entry of a `.fpkg`.
pub open spec fn signature_entry() -> Seq<char> {
    "META/signature.ed25519"@
}

/// Whether the bytes of a `.fpkg` are a zip archive whose signature entry
/// (`META/signature.ed25519`) opens.
pub fn signature_present(data: &[u8]) -> (res: bool)
    ensures
        res == zip_entry_opens(data@, signature_entry()),
{
    zip_has_entry(data, "META/signature.ed25519")
}

} // verus!
