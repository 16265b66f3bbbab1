//! Reading the members of `ar` and `tar` archives and undoing their compression,
//! on bytes already in memory.

use std::io::Read;
use vstd::prelude::*;
use crate::text::{chars_of, owned, same_as_str, starts_with, starts_with_str};
use crate::compat::error::{CompatError, CompatErrorView};

verus! {

/// One archive member: its name (absent when it is not valid UTF-8), the bytes that
/// could be read of it, and the size its header declares.
pub struct ArchiveEntry {
    pub name: Option<String>,
    pub data: Vec<u8>,
    pub size: u64,
}

/// The members of an archive in order, read until the end or until an error,
/// and the message of that error.
pub struct ArchiveListing {
    pub entries: Vec<ArchiveEntry>,
    pub error: Option<String>,
}

/// The plain value of an archive member: name, bytes read, declared size.
pub type EntryView = (Option<Seq<char>>, Seq<u8>, u64);

/// The plain value of an archive listing.
pub type ListingView = (Seq<EntryView>, Option<Seq<char>>);

impl ArchiveEntry {
    pub open spec fn view_entry(&self) -> EntryView {
        (
            match self.name {
                Some(n) => Some(n@),
                None => None,
            },
            self.data@,
            self.size,
        )
    }
}

impl ArchiveListing {
    pub open spec fn view_listing(&self) -> ListingView {
        (
            self.entries@.map_values(|e: ArchiveEntry| e.view_entry()),
            match self.error {
                Some(m) => Some(m@),
                None => None,
            },
        )
    }
}

/// The index of the first entry satisfying `pred`.
pub open spec fn first_match(es: Seq<EntryView>, pred: spec_fn(EntryView) -> bool) -> Option<int>
    decreases es.len(),
{
    if es.len() == 0 {
        None
    } else {
        match first_match(es.drop_last(), pred) {
            Some(i) => Some(i),
            None => if pred(es.last()) {
                Some(es.len() - 1)
            } else {
                None
            },
        }
    }
}

/// A first match is an entry that the predicate picks.
pub proof fn lemma_first_match_sound(es: Seq<EntryView>, pred: spec_fn(EntryView) -> bool)
    ensures
        first_match(es, pred) matches Some(i) ==> 0 <= i < es.len() && pred(es[i]),
    decreases es.len(),
{
    if es.len() > 0 {
        lemma_first_match_sound(es.drop_last(), pred);
    }
}

/// A first match in a prefix is the first match of the whole sequence.
pub proof fn lemma_first_match_prefix(es: Seq<EntryView>, pred: spec_fn(EntryView) -> bool, k: int)
    requires
        0 <= k <= es.len(),
        first_match(es.take(k), pred) is Some,
    ensures
        first_match(es, pred) == first_match(es.take(k), pred),
    decreases es.len() - k,
{
    if k < es.len() {
        assert(es.take(k + 1).drop_last() =~= es.take(k));
        lemma_first_match_prefix(es, pred, k + 1);
    } else {
        assert(es.take(k) =~= es);
    }
}

/// Extending a prefix without a match by one entry.
pub proof fn lemma_first_match_step(es: Seq<EntryView>, pred: spec_fn(EntryView) -> bool, k: int)
    requires
        0 <= k < es.len(),
        first_match(es.take(k), pred) is None,
    ensures
        first_match(es.take(k + 1), pred) == (if pred(es[k]) {
            Some(k)
        } else {
            None::<int>
        }),
{
    assert(es.take(k + 1).drop_last() =~= es.take(k));
    assert(es.take(k + 1).last() == es[k]);
}

/// A vector holding the bytes of `data`.
pub fn copy_bytes(data: &[u8]) -> (res: Vec<u8>)
    ensures
        res@ == data@,
{
    let mut out: Vec<u8> = Vec::new();
    for i in 0..data.len()
        invariant
            out@ == data@.take(i as int),
    {
        out.push(data[i]);
        assert(data@.take(i + 1) == data@.take(i as int).push(data@[i as int]));
    }
    assert(data@.take(data@.len() as int) == data@);
    out
}

/// The members that `ar::Archive` reads from `data`, and the error that stopped it.
pub uninterp spec fn ar_listing(data: Seq<u8>) -> ListingView;

/// The entries that `tar::Archive` reads from `data`, and the error that stopped it.
pub uninterp spec fn tar_listing(data: Seq<u8>) -> ListingView;

/// What `flate2::read::GzDecoder` yields when read to the end over `data`: the bytes
/// produced, and the message of the error that stopped it.
pub uninterp spec fn gzip_decoded(data: Seq<u8>) -> DecodedView;

/// What `zstd::stream::read::Decoder` yields when read to the end over `data`.
pub uninterp spec fn zstd_decoded(data: Seq<u8>) -> DecodedView;

/// What `bzip2::read::BzDecoder` yields when read to the end over `data`.
pub uninterp spec fn bzip2_decoded(data: Seq<u8>) -> DecodedView;

/// What a decoder produced before it stopped, and the error that stopped it (none when
/// it reached the end of its stream).
pub struct Decoded {
    pub data: Vec<u8>,
    pub error: Option<String>,
}

/// The plain value of a decoder's output.
pub type DecodedView = (Seq<u8>, Option<Seq<char>>);

/// The plain value of a decoder's output.
pub open spec fn decoded_view(r: Decoded) -> DecodedView {
    (
        r.data@,
        match r.error {
            Some(m) => Some(m@),
            None => None,
        },
    )
}

// ------------------------------------------------------------------ screening ar archives

/// Whether `b` is an ASCII decimal digit.
pub open spec fn is_ascii_digit(b: u8) -> bool {
    0x30 <= b <= 0x39
}

/// The number written by a string of ASCII digits.
pub open spec fn bytes_decimal(s: Seq<u8>) -> nat
    decreases s.len(),
{
    if s.len() == 0 {
        0
    } else {
        bytes_decimal(s.drop_last()) * 10 + (s.last() - 0x30) as nat
    }
}

/// Ten to the power `n`.
pub open spec fn pow10(n: nat) -> nat
    decreases n,
{
    if n == 0 {
        1
    } else {
        10 * pow10((n - 1) as nat)
    }
}

/// Whether `b` is white space in ASCII (`char::is_whitespace` on it).
pub open spec fn is_ascii_ws(b: u8) -> bool {
    b == 0x20 || (0x09 <= b && b <= 0x0d)
}

/// `f` without its trailing ASCII white space.
pub open spec fn trim_ws_end(f: Seq<u8>) -> Seq<u8>
    decreases f.len(),
{
    if f.len() > 0 && is_ascii_ws(f.last()) {
        trim_ws_end(f.drop_last())
    } else {
        f
    }
}

/// `t` without a leading `+`.
pub open spec fn unsigned_part(t: Seq<u8>) -> Seq<u8> {
    if t.len() > 0 && t[0] == 0x2b {
        t.drop_first()
    } else {
        t
    }
}

/// Whether every byte of `s` is an ASCII digit.
pub open spec fn all_ascii_digits(s: Seq<u8>) -> bool {
    forall|i: int| 0 <= i < s.len() ==> is_ascii_digit(#[trigger] s[i])
}

/// The number written by `t`: an optional `+`, then one or more ASCII digits.
pub open spec fn numeral(t: Seq<u8>) -> Option<nat> {
    let s = unsigned_part(t);
    if s.len() > 0 && all_ascii_digits(s) {
        Some(bytes_decimal(s))
    } else {
        None
    }
}

/// Whether `f` has a byte outside ASCII.
pub open spec fn has_high_byte(f: Seq<u8>) -> bool {
    exists|i: int| 0 <= i < f.len() && f[i] >= 0x80
}

/// How the `ar` crate reads a numeric header field (`u64::from_str_radix` on the field
/// with trailing white space trimmed): `Some(Some(n))` for the number `n`,
/// `Some(None)` when it is refused; for a field with bytes outside ASCII the library
/// does not decide (`None`).
pub open spec fn ar_number(f: Seq<u8>) -> Option<Option<nat>> {
    if has_high_byte(f) {
        None
    } else {
        Some(numeral(trim_ws_end(f)))
    }
}

/// The length of a member identifier field once its trailing spaces are dropped.
pub open spec fn trimmed_len(s: Seq<u8>) -> nat
    decreases s.len(),
{
    if s.len() > 0 && s.last() == 0x20 {
        trimmed_len(s.drop_last())
    } else {
        s.len()
    }
}

/// Whether the `ar` crate, reading member headers from offset `p` of `d` (after a
/// padding byte when `pad`), in variant `v` (0 common, 1 GNU, 2 BSD) with a GNU name
/// table of `t` bytes, never indexes its name table past its end, and whether the
/// library decides every number the walk depends on. Where the crate stops with an
/// error, so does the walk.
pub open spec fn ar_walk(d: Seq<u8>, p: int, pad: bool, v: u8, t: nat) -> bool
    decreases d.len() - p,
{
    if p < 0 || p > d.len() {
        true
    } else if pad && (p == d.len() || d[p] != 0x0a) {
        true
    } else {
        let h = if pad { p + 1 } else { p };
        if h + 60 > d.len() {
            true
        } else {
            let raw = d.subrange(h, h + 16);
            let k = trimmed_len(raw);
            match ar_number(d.subrange(h + 48, h + 58)) {
                None => false,
                Some(None) => true,
                Some(Some(size)) => {
                    let q = h + 60 + size;
                    let odd = size % 2 == 1;
                    let gnu_name = v != 2 && k > 0 && raw[0] == 0x2f;
                    if gnu_name && k != 1 && !(k == 2 && raw[1] == 0x2f) {
                        match ar_number(d.subrange(h + 1, h + 16)) {
                            None => false,
                            Some(None) => true,
                            Some(Some(start)) => start <= t && (q > d.len() || ar_walk(d, q, odd, 1, t)),
                        }
                    } else if gnu_name {
                        q > d.len() || ar_walk(d, q, odd, 1, if k == 2 { size } else { t })
                    } else if v != 2 && k > 0 && raw[k - 1] == 0x2f {
                        q > d.len() || ar_walk(d, q, odd, 1, t)
                    } else if v != 1 && k >= 3 && raw[0] == 0x23 && raw[1] == 0x31 && raw[2] == 0x2f {
                        match ar_number(d.subrange(h + 3, h + 16)) {
                            None => false,
                            Some(None) => true,
                            Some(Some(pl)) => pl > size || q > d.len() || ar_walk(
                                d,
                                q,
                                (size - pl) % 2 == 1,
                                2,
                                t,
                            ),
                        }
                    } else {
                        q > d.len() || ar_walk(d, q, odd, v, t)
                    }
                },
            }
        }
    }
}

/// Whether the `ar` crate can read the archive `d` without indexing its GNU name table
/// past its end, every number it reads on the way being one the library decides.
pub open spec fn ar_supported(d: Seq<u8>) -> bool {
    ar_walk(d, 8, false, 0, 0)
}

proof fn lemma_pow10_le(k: nat)
    requires
        k <= 15,
    ensures
        1 <= pow10(k) <= 1000000000000000,
    decreases 15 - k,
{
    reveal_with_fuel(pow10, 16);
    if k < 15 {
        lemma_pow10_le(k + 1);
    }
}

/// The length of the numeric field of `len` bytes at `at` without its trailing white
/// space; `None` when the field has a byte outside ASCII.
fn ar_field_trim_v(data: &[u8], at: usize, len: usize) -> (res: Option<usize>)
    requires
        at + len <= data.len(),
    ensures
        res is None <==> has_high_byte(data@.subrange(at as int, at + len)),
        res matches Some(e) ==> e <= len && trim_ws_end(data@.subrange(at as int, at + len))
            == data@.subrange(at as int, at + len).take(e as int),
{
    let ghost f = data@.subrange(at as int, at + len);
    let mut i: usize = 0;
    while i < len
        invariant
            i <= len,
            at + len <= data.len(),
            f == data@.subrange(at as int, at + len),
            forall|j: int| 0 <= j < i ==> f[j] < 0x80,
        decreases len - i,
    {
        if data[at + i] >= 0x80 {
            assert(f[i as int] >= 0x80);
            return None;
        }
        i = i + 1;
    }
    let mut e: usize = len;
    assert(f.take(len as int) =~= f);
    while e > 0 && (data[at + e - 1] == 0x20 || (0x09 <= data[at + e - 1] && data[at + e - 1] <= 0x0d))
        invariant
            e <= len,
            at + len <= data.len(),
            f == data@.subrange(at as int, at + len),
            trim_ws_end(f) == trim_ws_end(f.take(e as int)),
        decreases e,
    {
        assert(f.take(e as int).drop_last() =~= f.take(e - 1));
        e = e - 1;
    }
    assert(trim_ws_end(f.take(e as int)) == f.take(e as int));
    Some(e)
}

/// The number written by the `e` bytes at `at`, as `numeral` reads it.
fn numeral_v(data: &[u8], at: usize, e: usize) -> (res: Option<u64>)
    requires
        at + e <= data.len(),
        e <= 15,
    ensures
        match numeral(data@.subrange(at as int, at + e)) {
            None => res is None,
            Some(n) => res == Some(n as u64) && n < 1000000000000000,
        },
{
    let ghost tr = data@.subrange(at as int, at + e);
    let b: usize = if e > 0 && data[at] == 0x2b { 1 } else { 0 };
    let ghost s = unsigned_part(tr);
    assert(s =~= tr.subrange(b as int, e as int));
    if b >= e {
        return None;
    }
    let mut j: usize = b;
    let mut val: u64 = 0;
    while j < e
        invariant
            b <= j <= e <= 15,
            at + e <= data.len(),
            tr == data@.subrange(at as int, at + e),
            s == tr.subrange(b as int, e as int),
            s == unsigned_part(tr),
            forall|i: int| b <= i < j ==> is_ascii_digit(tr[i]),
            val == bytes_decimal(tr.subrange(b as int, j as int)),
            val + 1 <= pow10((j - b) as nat),
        decreases e - j,
    {
        let c = data[at + j];
        if !(0x30 <= c && c <= 0x39) {
            assert(s[j - b] == tr[j as int]);
            assert(!is_ascii_digit(s[j - b]));
            assert(numeral(tr) is None);
            return None;
        }
        proof {
            lemma_pow10_le((j + 1 - b) as nat);
            assert(tr.subrange(b as int, j + 1).drop_last() =~= tr.subrange(b as int, j as int));
            assert(tr.subrange(b as int, j + 1).last() == tr[j as int]);
        }
        val = val * 10 + (c - 0x30) as u64;
        j = j + 1;
    }
    proof {
        lemma_pow10_le((e - b) as nat);
        assert forall|i: int| 0 <= i < s.len() implies is_ascii_digit(s[i]) by {
            assert(s[i] == tr[b + i]);
        }
    }
    Some(val)
}

/// How the `ar` crate reads the numeric field of `len` bytes at `at`.
fn ar_number_v(data: &[u8], at: usize, len: usize) -> (res: Option<Option<u64>>)
    requires
        at + len <= data.len(),
        len <= 15,
    ensures
        match ar_number(data@.subrange(at as int, at + len)) {
            None => res is None,
            Some(None) => res == Some(None::<u64>),
            Some(Some(n)) => res == Some(Some(n as u64)) && n < 1000000000000000,
        },
{
    let ghost f = data@.subrange(at as int, at + len);
    match ar_field_trim_v(data, at, len) {
        None => None,
        Some(e) => {
            assert(f.take(e as int) =~= data@.subrange(at as int, at + e));
            Some(numeral_v(data, at, e))
        },
    }
}

/// The length of the identifier field at `h` without its trailing spaces.
fn trimmed_len_v(data: &[u8], h: usize) -> (res: usize)
    requires
        h + 16 <= data.len(),
    ensures
        res == trimmed_len(data@.subrange(h as int, h + 16)),
        res <= 16,
{
    let ghost raw = data@.subrange(h as int, h + 16);
    let mut e: usize = 16;
    assert(raw.take(16) =~= raw);
    while e > 0 && data[h + e - 1] == 0x20
        invariant
            e <= 16,
            h + 16 <= data.len(),
            raw == data@.subrange(h as int, h + 16),
            trimmed_len(raw) == trimmed_len(raw.take(e as int)),
        decreases e,
    {
        assert(raw.take(e as int).drop_last() =~= raw.take(e - 1));
        e = e - 1;
    }
    e
}

/// Whether the `ar` archive in `data` is one the library hands to the `ar` crate.
pub fn ar_archive_supported(data: &[u8]) -> (res: bool)
    ensures
        res == ar_supported(data@),
{
    if data.len() < 8 {
        return true;
    }
    let mut p: usize = 8;
    let mut pad: bool = false;
    let mut v: u8 = 0;
    let mut t: u64 = 0;
    loop
        invariant
            p <= data.len(),
            ar_walk(data@, 8, false, 0, 0) == ar_walk(data@, p as int, pad, v, t as nat),
        decreases data.len() - p,
    {
        if pad && (p == data.len() || data[p] != 0x0a) {
            return true;
        }
        let h: usize = if pad { p + 1 } else { p };
        if h > data.len() || data.len() - h < 60 {
            return true;
        }
        let k = trimmed_len_v(data, h);
        let size = match ar_number_v(data, h + 48, 10) {
            None => return false,
            Some(None) => return true,
            Some(Some(n)) => n,
        };
        let q: u128 = h as u128 + 60 + size as u128;
        let odd = size % 2 == 1;
        let gnu_name = v != 2 && k > 0 && data[h] == 0x2f;
        let mut next_v: u8 = v;
        let mut next_t: u64 = t;
        let mut next_odd: bool = odd;
        if gnu_name && k != 1 && !(k == 2 && data[h + 1] == 0x2f) {
            match ar_number_v(data, h + 1, 15) {
                None => return false,
                Some(None) => return true,
                Some(Some(start)) => {
                    if start > t {
                        return false;
                    }
                },
            }
            next_v = 1;
        } else if gnu_name {
            next_v = 1;
            if k == 2 {
                next_t = size;
            }
        } else if v != 2 && k > 0 && data[h + k - 1] == 0x2f {
            next_v = 1;
        } else if v != 1 && k >= 3 && data[h] == 0x23 && data[h + 1] == 0x31 && data[h + 2] == 0x2f {
            match ar_number_v(data, h + 3, 13) {
                None => return false,
                Some(None) => return true,
                Some(Some(pl)) => {
                    if pl > size {
                        return true;
                    }
                    next_odd = (size - pl) % 2 == 1;
                },
            }
            next_v = 2;
        }
        if q > data.len() as u128 {
            return true;
        }
        p = q as usize;
        pad = next_odd;
        v = next_v;
        t = next_t;
    }
}

/// Walks `ar::Archive::next_entry` over `data`, reading each member; its listing is the
/// named `ar_listing` of the bytes. A member's identifier is decoded lossily, so it is never absent.
/// Only archives that `ar_supported` admits are handed to the crate: it indexes its GNU
/// name table with a number read from a header, unchecked.
#[verifier::external_body]
pub(crate) fn ar_members(data: &[u8]) -> (res: ArchiveListing)
    requires
        ar_supported(data@),
    ensures
        res.view_listing() == ar_listing(data@),
{
    let mut archive = ar::Archive::new(data);
    let mut out = ArchiveListing { entries: Vec::new(), error: None };
    while let Some(entry) = archive.next_entry() {
        match entry.and_then(|mut e| {
            let mut d = Vec::new();
            e.read_to_end(&mut d)?;
            Ok(ArchiveEntry { name: Some(String::from_utf8_lossy(e.header().identifier()).into_owned()), data: d, size: e.header().size() })
        }) {
            Ok(x) => out.entries.push(x),
            Err(e) => { out.error = Some(e.to_string()); break; }
        }
    }
    out
}

/// Walks `tar::Archive::entries` over `data`, reading each entry; its listing is the
/// named `tar_listing` of the bytes.
#[verifier::external_body]
pub(crate) fn tar_members(data: &[u8]) -> (res: ArchiveListing)
    ensures
        res.view_listing() == tar_listing(data@),
{
    let mut archive = tar::Archive::new(data);
    let mut error = None;
    let entries = match archive.entries() {
        Ok(es) => es.map_while(|r| r.and_then(|mut e| {
            let mut d = Vec::new();
            e.read_to_end(&mut d)?;
            Ok(ArchiveEntry { name: e.path()?.to_str().map(String::from), data: d, size: e.header().size()? })
        }).map_err(|e| error = Some(e.to_string())).ok()).collect(),
        Err(e) => { error = Some(e.to_string()); Vec::new() }
    };
    ArchiveListing { entries, error }
}

/// Reads `flate2::read::GzDecoder` over `data` to the end; the output is the named
/// `gzip_decoded` of the bytes: what `read_to_end` appended, and its error's message.
#[verifier::external_body]
pub(crate) fn gzip_decode(data: &[u8]) -> (res: Decoded)
    ensures
        decoded_view(res) == gzip_decoded(data@),
{
    let mut out = Vec::new();
    let error = flate2::read::GzDecoder::new(data).read_to_end(&mut out).err().map(|e| e.to_string());
    Decoded { data: out, error }
}

/// Reads `zstd::stream::read::Decoder` over `data` to the end (or fails to create it);
/// the output is the named `zstd_decoded` of the bytes.
#[verifier::external_body]
pub(crate) fn zstd_decode(data: &[u8]) -> (res: Decoded)
    ensures
        decoded_view(res) == zstd_decoded(data@),
{
    let mut out = Vec::new();
    let error = match zstd::stream::read::Decoder::new(data) {
        Ok(mut d) => d.read_to_end(&mut out).err().map(|e| e.to_string()),
        Err(e) => Some(e.to_string()),
    };
    Decoded { data: out, error }
}

/// Reads `bzip2::read::BzDecoder` over `data` to the end; the output is the named
/// `bzip2_decoded` of the bytes.
#[verifier::external_body]
pub(crate) fn bzip2_decode(data: &[u8]) -> (res: Decoded)
    ensures
        decoded_view(res) == bzip2_decoded(data@),
{
    let mut out = Vec::new();
    let error = bzip2::read::BzDecoder::new(data).read_to_end(&mut out).err().map(|e| e.to_string());
    Decoded { data: out, error }
}

// ------------------------------------------------------------------ picking a member

/// The members that the converters look for.
#[derive(Clone, Copy)]
pub enum MemberKind {
    /// An `ar` member of a `.deb` whose name starts with `control.tar`.
    ControlTar,
    /// The `control` file of a `control.tar`: `./control` or `control`.
    ControlFile,
    /// The metadata file of an Alpine or Arch package: `.PKGINFO` or `PKGINFO`.
    PkgInfo,
}

/// Whether a member named `n` is one of kind `kind`.
pub open spec fn member_name_matches(kind: MemberKind, n: Seq<char>) -> bool {
    match kind {
        MemberKind::ControlTar => starts_with(n, "control.tar"@),
        MemberKind::ControlFile => n == "./control"@ || n == "control"@,
        MemberKind::PkgInfo => n == ".PKGINFO"@ || n == "PKGINFO"@,
    }
}

/// The entries of kind `kind`: those with a name that matches.
pub open spec fn member_pred(kind: MemberKind) -> spec_fn(EntryView) -> bool {
    |e: EntryView| e.0 matches Some(n) && member_name_matches(kind, n)
}

/// The first entry of kind `kind` of a listing; else the error that ended the listing,
/// or `missing` when it ended cleanly.
pub open spec fn pick_entry(l: ListingView, kind: MemberKind, missing: Seq<char>) -> Result<
    EntryView,
    CompatErrorView,
> {
    match first_match(l.0, member_pred(kind)) {
        Some(i) => Ok(l.0[i]),
        None => match l.1 {
            Some(m) => Err(CompatErrorView::Archive(m)),
            None => Err(CompatErrorView::Archive(missing)),
        },
    }
}

/// Whether a member named `n` is one of kind `kind`.
fn member_name_is(kind: MemberKind, n: &str) -> (res: bool)
    ensures
        res == member_name_matches(kind, n@),
{
    let nc = chars_of(n);
    match kind {
        MemberKind::ControlTar => starts_with_str(&nc, "control.tar"),
        MemberKind::ControlFile => same_as_str(&nc, "./control") || same_as_str(&nc, "control"),
        MemberKind::PkgInfo => same_as_str(&nc, ".PKGINFO") || same_as_str(&nc, "PKGINFO"),
    }
}

/// The index of the first entry of kind `kind`.
fn find_member(l: &ArchiveListing, kind: MemberKind) -> (res: Option<usize>)
    ensures
        first_match(l.view_listing().0, member_pred(kind)) == (match res {
            Some(i) => Some(i as int),
            None => None::<int>,
        }),
        res matches Some(i) ==> i < l.entries.len(),
{
    let ghost pred = member_pred(kind);
    let ghost es = l.view_listing().0;
    assert(es.len() == l.entries.len());
    let mut i: usize = 0;
    while i < l.entries.len()
        invariant
            i <= l.entries.len(),
            es == l.view_listing().0,
            es.len() == l.entries.len(),
            pred == member_pred(kind),
            first_match(es.take(i as int), pred) is None,
        decreases l.entries.len() - i,
    {
        let e = &l.entries[i];
        assert(es[i as int] == e.view_entry());
        let hit = match &e.name {
            Some(n) => member_name_is(kind, n.as_str()),
            None => false,
        };
        assert(hit == pred(es[i as int]));
        proof {
            lemma_first_match_step(es, pred, i as int);
        }
        if hit {
            proof {
                lemma_first_match_prefix(es, pred, i + 1);
            }
            return Some(i);
        }
        i = i + 1;
    }
    assert(es.take(i as int) =~= es);
    None
}

/// The index of the first entry of kind `kind`; else the error that ended the listing,
/// or `missing` when it ended cleanly.
pub fn pick_member(l: &ArchiveListing, kind: MemberKind, missing: &str) -> (res: Result<usize, CompatError>)
    ensures
        match res {
            Ok(i) => {
                &&& i < l.entries.len()
                &&& pick_entry(l.view_listing(), kind, missing@) == Ok::<EntryView, CompatErrorView>(l.entries@[i as int].view_entry())
                &&& member_pred(kind)(l.entries@[i as int].view_entry())
            },
            Err(e) => pick_entry(l.view_listing(), kind, missing@) == Err::<EntryView, CompatErrorView>(e@),
        },
{
    match find_member(l, kind) {
        Some(i) => {
            proof {
                lemma_first_match_sound(l.view_listing().0, member_pred(kind));
                assert(l.view_listing().0[i as int] == l.entries@[i as int].view_entry());
            }
            Ok(i)
        },
        None => match &l.error {
            Some(m) => Err(CompatError::Archive(m.clone())),
            None => Err(CompatError::Archive(owned(missing))),
        },
    }
}

/// The entry of kind `kind` of a tar stream read through a decoder that produced
/// `dec`, as reading the stream up to that entry gives it: when the decoder stopped
/// with an error, an entry read whole is still found, an entry cut short by the error
/// gives that error as a read error, and without such an entry the error ends the
/// search; otherwise as `pick_entry` over the listing.
pub open spec fn pick_streamed(dec: DecodedView, kind: MemberKind, missing: Seq<char>) -> Result<
    EntryView,
    CompatErrorView,
> {
    let l = tar_listing(dec.0);
    match dec.1 {
        None => pick_entry(l, kind, missing),
        Some(m) => match first_match(l.0, member_pred(kind)) {
            Some(i) => if l.0[i].1.len() < l.0[i].2 {
                Err(CompatErrorView::Io(m))
            } else {
                Ok(l.0[i])
            },
            None => Err(CompatErrorView::Archive(m)),
        },
    }
}

/// The index, in `l` (the listing of the tar stream in `dec.data`), of the entry that
/// `pick_streamed` gives.
pub fn pick_streamed_member(dec: &Decoded, l: &ArchiveListing, kind: MemberKind, missing: &str) -> (res: Result<usize, CompatError>)
    requires
        l.view_listing() == tar_listing(dec.data@),
    ensures
        match res {
            Ok(i) => {
                &&& i < l.entries.len()
                &&& pick_streamed(decoded_view(*dec), kind, missing@) == Ok::<EntryView, CompatErrorView>(l.entries@[i as int].view_entry())
            },
            Err(e) => pick_streamed(decoded_view(*dec), kind, missing@) == Err::<EntryView, CompatErrorView>(e@),
        },
{
    match &dec.error {
        None => pick_member(l, kind, missing),
        Some(m) => match find_member(l, kind) {
            Some(i) => {
                proof {
                    lemma_first_match_sound(l.view_listing().0, member_pred(kind));
                    assert(l.view_listing().0[i as int] == l.entries@[i as int].view_entry());
                }
                if (l.entries[i].data.len() as u64) < l.entries[i].size {
                    Err(CompatError::Io(m.clone()))
                } else {
                    Ok(i)
                }
            },
            None => Err(CompatError::Archive(m.clone())),
        },
    }
}

} // verus!
