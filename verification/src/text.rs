//! Character-level text handling shared by the parsers and renderers of the
//! library: trimming, splitting, searching, decimal and hexadecimal numbers.
//!
//! Text is processed as `Vec<char>` whose view is the `Seq<char>` of a `String`.
//! Unicode white space is stated here; alphanumerics and lowercasing are those of
//! the standard library and are named, not restated.

use vstd::prelude::*;

verus! {

// ------------------------------------------------------------------ trusted std

/// Whether `c` has the Unicode `White_Space` property, which `char::is_whitespace`
/// tests: the 25 code points that `PropList.txt` lists for it.
pub open spec fn unicode_white_space(c: char) -> bool {
    let u = c as u32;
    ||| 0x09 <= u <= 0x0d
    ||| u == 0x20
    ||| u == 0x85
    ||| u == 0xa0
    ||| u == 0x1680
    ||| 0x2000 <= u <= 0x200a
    ||| u == 0x2028
    ||| u == 0x2029
    ||| u == 0x202f
    ||| u == 0x205f
    ||| u == 0x3000
}

/// Whether `c` is alphabetic or numeric in Unicode, as `char::is_alphanumeric` decides.
pub uninterp spec fn unicode_alphanumeric(c: char) -> bool;

/// The Unicode lowercase mapping of a string, as `str::to_lowercase` computes it.
pub uninterp spec fn unicode_lowercase(s: Seq<char>) -> Seq<char>;

/// Whether `c` is Unicode white space.
pub fn is_whitespace(c: char) -> (b: bool)
    ensures
        b == unicode_white_space(c),
{
    let u = c as u32;
    (0x09 <= u && u <= 0x0d) || u == 0x20 || u == 0x85 || u == 0xa0 || u == 0x1680 || (0x2000 <= u
        && u <= 0x200a) || u == 0x2028 || u == 0x2029 || u == 0x202f || u == 0x205f || u == 0x3000
}

/// Calls `char::is_alphanumeric`; the result is the named Unicode property of `c`.
#[verifier::external_body]
pub(crate) fn is_alphanumeric(c: char) -> (b: bool)
    ensures
        b == unicode_alphanumeric(c),
{
    c.is_alphanumeric()
}

/// Calls `str::to_lowercase`; the result is the named lowercase mapping of `s`.
#[verifier::external_body]
pub(crate) fn to_lowercase(s: &str) -> (res: String)
    ensures
        res@ == unicode_lowercase(s@),
{
    s.to_lowercase()
}

/// Calls `String::push`: the character is appended.
#[verifier::external_body]
pub(crate) fn push_char(s: &mut String, c: char)
    ensures
        final(s)@ == old(s)@.push(c),
{
    s.push(c);
}

/// Calls `std::str::from_utf8` and copies the text: `Some` exactly when the bytes are
/// valid UTF-8, and then the characters they encode.
#[verifier::external_body]
pub(crate) fn utf8_decode(bytes: &[u8]) -> (res: Option<String>)
    ensures
        res is Some <==> vstd::utf8::valid_utf8(bytes@),
        res matches Some(s) ==> s@ == vstd::utf8::decode_utf8(bytes@),
{
    std::str::from_utf8(bytes).ok().map(|s| s.to_owned())
}

// ------------------------------------------------------------------ spec model

/// The character sequences held by a vector of character vectors.
pub open spec fn views(v: Seq<Vec<char>>) -> Seq<Seq<char>> {
    v.map_values(|x: Vec<char>| x@)
}

/// `s` without its leading white space.
pub open spec fn trim_start(s: Seq<char>) -> Seq<char>
    decreases s.len(),
{
    if s.len() > 0 && unicode_white_space(s[0]) {
        trim_start(s.drop_first())
    } else {
        s
    }
}

/// `s` without its trailing white space.
pub open spec fn trim_end(s: Seq<char>) -> Seq<char>
    decreases s.len(),
{
    if s.len() > 0 && unicode_white_space(s.last()) {
        trim_end(s.drop_last())
    } else {
        s
    }
}

/// `s` without leading and trailing white space (`str::trim`).
pub open spec fn trim(s: Seq<char>) -> Seq<char> {
    trim_end(trim_start(s))
}

/// `s` without trailing occurrences of `c` (`str::trim_end_matches` with a char).
pub open spec fn trim_end_char(s: Seq<char>, c: char) -> Seq<char>
    decreases s.len(),
{
    if s.len() > 0 && s.last() == c {
        trim_end_char(s.drop_last(), c)
    } else {
        s
    }
}

/// `s` without leading occurrences of `c` (`str::trim_start_matches` with a char).
pub open spec fn trim_start_char(s: Seq<char>, c: char) -> Seq<char>
    decreases s.len(),
{
    if s.len() > 0 && s[0] == c {
        trim_start_char(s.drop_first(), c)
    } else {
        s
    }
}

/// `s` without leading characters that are not alphanumeric.
pub open spec fn trim_start_non_alnum(s: Seq<char>) -> Seq<char>
    decreases s.len(),
{
    if s.len() > 0 && !unicode_alphanumeric(s[0]) {
        trim_start_non_alnum(s.drop_first())
    } else {
        s
    }
}

/// The pieces of `s` between the occurrences of `sep` (`str::split` with a char).
pub open spec fn split_char(s: Seq<char>, sep: char) -> Seq<Seq<char>>
    decreases s.len(),
{
    if s.len() == 0 {
        seq![Seq::<char>::empty()]
    } else {
        let rest = split_char(s.drop_last(), sep);
        if s.last() == sep {
            rest.push(Seq::<char>::empty())
        } else {
            rest.update(rest.len() - 1, rest.last().push(s.last()))
        }
    }
}

/// One trailing carriage return removed.
pub open spec fn strip_cr(l: Seq<char>) -> Seq<char> {
    if l.len() > 0 && l.last() == '\r' {
        l.drop_last()
    } else {
        l
    }
}

/// The lines of `s` (`str::lines`): split at `\n`, a `\r` before a `\n` dropped, and
/// no empty last line after a final line ending.
pub open spec fn lines(s: Seq<char>) -> Seq<Seq<char>> {
    let p = split_char(s, '\n');
    let n = p.len() - 1;
    let body = p.take(n).map_values(|l: Seq<char>| strip_cr(l));
    if p[n].len() == 0 {
        body
    } else {
        body.push(p[n])
    }
}

/// `p` is a prefix of `s`.
pub open spec fn starts_with(s: Seq<char>, p: Seq<char>) -> bool {
    p.len() <= s.len() && s.take(p.len() as int) == p
}

/// `p` is a suffix of `s`.
pub open spec fn ends_with(s: Seq<char>, p: Seq<char>) -> bool {
    p.len() <= s.len() && s.skip(s.len() - p.len()) == p
}

/// `pat` occurs in `s` at index `i`.
pub open spec fn occurs_at(s: Seq<char>, pat: Seq<char>, i: int) -> bool {
    0 <= i && i + pat.len() <= s.len() && s.subrange(i, i + pat.len()) == pat
}

/// `i` is the first index at which `pat` occurs in `s`.
pub open spec fn first_occurrence(s: Seq<char>, pat: Seq<char>, i: int) -> bool {
    occurs_at(s, pat, i) && forall|j: int| 0 <= j < i ==> !occurs_at(s, pat, j)
}

/// The text before and after the first occurrence of `pat` (`str::split_once`).
pub open spec fn split_once(s: Seq<char>, pat: Seq<char>) -> Option<(Seq<char>, Seq<char>)> {
    if exists|i: int| first_occurrence(s, pat, i) {
        let i = choose|i: int| first_occurrence(s, pat, i);
        Some((s.take(i), s.skip(i + pat.len())))
    } else {
        None
    }
}

/// The first index of `c` in `s` (`str::find` with a char).
pub open spec fn find_char(s: Seq<char>, c: char) -> Option<int> {
    match split_once(s, seq![c]) {
        Some(p) => Some(p.0.len() as int),
        None => None,
    }
}

/// The pieces joined, with `sep` between consecutive pieces (`[String]::join`).
pub open spec fn join(pieces: Seq<Seq<char>>, sep: Seq<char>) -> Seq<char>
    decreases pieces.len(),
{
    if pieces.len() == 0 {
        Seq::<char>::empty()
    } else if pieces.len() == 1 {
        pieces[0]
    } else {
        join(pieces.drop_last(), sep) + sep + pieces.last()
    }
}

/// The decimal digit for `d < 10`.
pub open spec fn digit_char(d: nat) -> char {
    (48 + d) as char
}

/// The decimal rendering of `n` (`u64::to_string`).
pub open spec fn decimal(n: nat) -> Seq<char>
    decreases n,
{
    if n < 10 {
        seq![digit_char(n)]
    } else {
        decimal(n / 10).push(digit_char(n % 10))
    }
}

/// Every character is an ASCII digit.
pub open spec fn all_digits(s: Seq<char>) -> bool {
    forall|i: int| 0 <= i < s.len() ==> '0' <= #[trigger] s[i] <= '9'
}

/// The value of a string of ASCII digits.
pub open spec fn digits_value(s: Seq<char>) -> nat
    decreases s.len(),
{
    if s.len() == 0 {
        0
    } else {
        digits_value(s.drop_last()) * 10 + (s.last() as nat - 48) as nat
    }
}

/// `u64::from_str`: an optional `+`, then at least one ASCII digit, and a value that fits.
pub open spec fn parse_u64(s: Seq<char>) -> Option<u64> {
    if s.len() > 0 && s[0] == '+' {
        parse_digits(s.drop_first())
    } else {
        parse_digits(s)
    }
}

/// At least one ASCII digit, and a value that fits in a `u64`.
pub open spec fn parse_digits(d: Seq<char>) -> Option<u64> {
    if d.len() > 0 && all_digits(d) && digits_value(d) <= u64::MAX {
        Some(digits_value(d) as u64)
    } else {
        None
    }
}

/// The lowercase hexadecimal digit for `d < 16`.
pub open spec fn hex_char(d: nat) -> char {
    if d < 10 {
        (48 + d) as char
    } else {
        (87 + d) as char
    }
}

/// Two lowercase hexadecimal digits per byte, most significant first.
pub open spec fn hex_lower(b: Seq<u8>) -> Seq<char>
    decreases b.len(),
{
    if b.len() == 0 {
        Seq::<char>::empty()
    } else {
        hex_lower(b.drop_last()).push(hex_char(b.last() as nat / 16)).push(
            hex_char(b.last() as nat % 16),
        )
    }
}

// ------------------------------------------------------------------ lemmas

/// `split_char` always yields at least one piece.
pub proof fn lemma_split_nonempty(s: Seq<char>, sep: char)
    ensures
        split_char(s, sep).len() >= 1,
    decreases s.len(),
{
    if s.len() > 0 {
        lemma_split_nonempty(s.drop_last(), sep);
    }
}

/// A string without `sep` is a single piece.
pub proof fn lemma_split_no_sep(s: Seq<char>, sep: char)
    requires
        !s.contains(sep),
    ensures
        split_char(s, sep) == seq![s],
    decreases s.len(),
{
    if s.len() > 0 {
        assert(!s.drop_last().contains(sep)) by {
            if s.drop_last().contains(sep) {
                let k = choose|k: int| 0 <= k < s.drop_last().len() && s.drop_last()[k] == sep;
                assert(s[k] == sep);
            }
        }
        lemma_split_no_sep(s.drop_last(), sep);
        assert(s.last() != sep) by {
            assert(s[s.len() - 1] == s.last());
        }
        assert(s.drop_last().push(s.last()) =~= s);
        assert(seq![s.drop_last()].update(0, s.drop_last().push(s.last())) =~= seq![s]);
    } else {
        assert(s =~= Seq::<char>::empty());
    }
}

/// Two first occurrences are the same index.
pub proof fn lemma_first_occurrence_unique(s: Seq<char>, pat: Seq<char>, i: int, j: int)
    requires
        first_occurrence(s, pat, i),
        first_occurrence(s, pat, j),
    ensures
        i == j,
{
    if i < j {
        assert(!occurs_at(s, pat, i));
    }
    if j < i {
        assert(!occurs_at(s, pat, j));
    }
}

/// The value of a digit prefix never exceeds the value of the whole digit string.
pub proof fn lemma_digits_prefix_le(s: Seq<char>, i: int)
    requires
        all_digits(s),
        0 <= i <= s.len(),
    ensures
        digits_value(s.take(i)) <= digits_value(s),
    decreases s.len() - i,
{
    if i < s.len() {
        lemma_digits_prefix_le(s, i + 1);
        assert(s.take(i + 1).drop_last() =~= s.take(i));
        assert('0' <= s[i] <= '9');
        assert(digits_value(s.take(i + 1)) == digits_value(s.take(i)) * 10 + (s[i] as nat
            - 48) as nat);
    } else {
        assert(s.take(i) =~= s);
    }
}

// ------------------------------------------------------------------ exec

/// The characters of `s`.
pub fn chars_of(s: &str) -> (res: Vec<char>)
    ensures
        res@ == s@,
{
    let mut out: Vec<char> = Vec::new();
    for c in it: s.chars()
        invariant
            out@ == it.seq().take(it.index() as int),
            it.seq() == s@,
    {
        out.push(c);
    }
    out
}

/// A `String` holding the characters of `v`.
pub fn string_of(v: &Vec<char>) -> (res: String)
    ensures
        res@ == v@,
{
    let mut s = String::new();
    for i in 0..v.len()
        invariant
            s@ == v@.take(i as int),
    {
        push_char(&mut s, v[i]);
        assert(v@.take(i + 1) == v@.take(i as int).push(v@[i as int]));
    }
    assert(v@.take(v.len() as int) == v@);
    s
}

/// A `String` holding the characters of a string literal or slice.
pub fn owned(s: &str) -> (res: String)
    ensures
        res@ == s@,
{
    s.to_owned()
}

/// The characters `v[i..j]`.
pub fn slice_of(v: &Vec<char>, i: usize, j: usize) -> (res: Vec<char>)
    requires
        i <= j <= v.len(),
    ensures
        res@ == v@.subrange(i as int, j as int),
{
    let mut out: Vec<char> = Vec::new();
    let mut k = i;
    while k < j
        invariant
            i <= k <= j <= v.len(),
            out@ == v@.subrange(i as int, k as int),
        decreases j - k,
    {
        out.push(v[k]);
        assert(v@.subrange(i as int, k + 1) == v@.subrange(i as int, k as int).push(v@[k as int]));
        k = k + 1;
    }
    out
}

/// Appends the characters of `s` to `out`.
pub fn append(out: &mut Vec<char>, s: &Vec<char>)
    ensures
        final(out)@ == old(out)@ + s@,
{
    let ghost start = out@;
    for i in 0..s.len()
        invariant
            out@ == start + s@.take(i as int),
    {
        out.push(s[i]);
        assert(s@.take(i + 1) == s@.take(i as int).push(s@[i as int]));
    }
    assert(s@.take(s.len() as int) == s@);
}

/// Appends the characters of a string slice to `out`.
pub fn append_str(out: &mut Vec<char>, s: &str)
    ensures
        final(out)@ == old(out)@ + s@,
{
    let c = chars_of(s);
    append(out, &c);
}

/// Appends the characters of a `String` to `out`.
pub fn append_string(out: &mut Vec<char>, s: &String)
    ensures
        final(out)@ == old(out)@ + s@,
{
    append_str(out, s.as_str());
}

/// `s` without leading white space.
pub fn trim_start_v(s: &Vec<char>) -> (res: Vec<char>)
    ensures
        res@ == trim_start(s@),
{
    let mut i: usize = 0;
    assert(s@.skip(0) =~= s@);
    while i < s.len() && is_whitespace(s[i])
        invariant
            i <= s.len(),
            trim_start(s@) == trim_start(s@.skip(i as int)),
        decreases s.len() - i,
    {
        assert(s@.skip(i as int).drop_first() =~= s@.skip(i + 1));
        i = i + 1;
    }
    let r = slice_of(s, i, s.len());
    assert(r@ =~= s@.skip(i as int));
    r
}

/// `s` without trailing white space.
pub fn trim_end_v(s: &Vec<char>) -> (res: Vec<char>)
    ensures
        res@ == trim_end(s@),
{
    let mut j: usize = s.len();
    assert(s@.take(s@.len() as int) =~= s@);
    while j > 0 && is_whitespace(s[j - 1])
        invariant
            j <= s.len(),
            trim_end(s@) == trim_end(s@.take(j as int)),
        decreases j,
    {
        assert(s@.take(j as int).drop_last() =~= s@.take(j - 1));
        assert(s@.take(j as int).last() == s@[j - 1]);
        j = j - 1;
    }
    let r = slice_of(s, 0, j);
    assert(r@ =~= s@.take(j as int));
    r
}

/// `s` without leading and trailing white space.
pub fn trim_v(s: &Vec<char>) -> (res: Vec<char>)
    ensures
        res@ == trim(s@),
{
    let a = trim_start_v(s);
    trim_end_v(&a)
}

/// `s` without trailing occurrences of `c`.
pub fn trim_end_char_v(s: &Vec<char>, c: char) -> (res: Vec<char>)
    ensures
        res@ == trim_end_char(s@, c),
{
    let mut j: usize = s.len();
    assert(s@.take(s@.len() as int) =~= s@);
    while j > 0 && s[j - 1] == c
        invariant
            j <= s.len(),
            trim_end_char(s@, c) == trim_end_char(s@.take(j as int), c),
        decreases j,
    {
        assert(s@.take(j as int).drop_last() =~= s@.take(j - 1));
        assert(s@.take(j as int).last() == s@[j - 1]);
        j = j - 1;
    }
    let r = slice_of(s, 0, j);
    assert(r@ =~= s@.take(j as int));
    r
}

/// `s` without leading occurrences of `c`.
pub fn trim_start_char_v(s: &Vec<char>, c: char) -> (res: Vec<char>)
    ensures
        res@ == trim_start_char(s@, c),
{
    let mut i: usize = 0;
    assert(s@.skip(0) =~= s@);
    while i < s.len() && s[i] == c
        invariant
            i <= s.len(),
            trim_start_char(s@, c) == trim_start_char(s@.skip(i as int), c),
        decreases s.len() - i,
    {
        assert(s@.skip(i as int).drop_first() =~= s@.skip(i + 1));
        i = i + 1;
    }
    let r = slice_of(s, i, s.len());
    assert(r@ =~= s@.skip(i as int));
    r
}

/// `s` without leading characters that are not alphanumeric.
pub fn trim_start_non_alnum_v(s: &Vec<char>) -> (res: Vec<char>)
    ensures
        res@ == trim_start_non_alnum(s@),
{
    let mut i: usize = 0;
    assert(s@.skip(0) =~= s@);
    while i < s.len() && !is_alphanumeric(s[i])
        invariant
            i <= s.len(),
            trim_start_non_alnum(s@) == trim_start_non_alnum(s@.skip(i as int)),
        decreases s.len() - i,
    {
        assert(s@.skip(i as int).drop_first() =~= s@.skip(i + 1));
        i = i + 1;
    }
    let r = slice_of(s, i, s.len());
    assert(r@ =~= s@.skip(i as int));
    r
}

/// Whether `p` is a prefix of `s`.
pub fn starts_with_v(s: &Vec<char>, p: &Vec<char>) -> (res: bool)
    ensures
        res == starts_with(s@, p@),
{
    if p.len() > s.len() {
        return false;
    }
    let mut i: usize = 0;
    while i < p.len()
        invariant
            p.len() <= s.len(),
            i <= p.len(),
            forall|k: int| 0 <= k < i ==> s@[k] == p@[k],
        decreases p.len() - i,
    {
        if s[i] != p[i] {
            assert(s@.take(p.len() as int)[i as int] != p@[i as int]);
            return false;
        }
        i = i + 1;
    }
    assert(s@.take(p.len() as int) =~= p@);
    true
}

/// Whether `a` and `b` hold the same characters.
pub fn same_chars(a: &Vec<char>, b: &Vec<char>) -> (res: bool)
    ensures
        res == (a@ == b@),
{
    if a.len() != b.len() {
        return false;
    }
    let r = starts_with_v(a, b);
    assert(a@.take(b.len() as int) =~= a@);
    r
}

/// Whether `s` holds exactly the characters of the slice `p`.
pub fn same_as_str(s: &Vec<char>, p: &str) -> (res: bool)
    ensures
        res == (s@ == p@),
{
    let pv = chars_of(p);
    same_chars(s, &pv)
}

/// Whether `p` is a suffix of `s`.
pub fn ends_with_v(s: &Vec<char>, p: &Vec<char>) -> (res: bool)
    ensures
        res == ends_with(s@, p@),
{
    if p.len() > s.len() {
        return false;
    }
    let off = s.len() - p.len();
    let mut i: usize = 0;
    while i < p.len()
        invariant
            p.len() <= s.len(),
            off == s.len() - p.len(),
            i <= p.len(),
            forall|k: int| 0 <= k < i ==> s@[off + k] == p@[k],
        decreases p.len() - i,
    {
        if s[off + i] != p[i] {
            assert(s@.skip(off as int)[i as int] != p@[i as int]);
            return false;
        }
        i = i + 1;
    }
    assert(s@.skip(off as int) =~= p@);
    true
}

/// Whether `p` (a string slice) is a suffix of `s`.
pub fn ends_with_str(s: &Vec<char>, p: &str) -> (res: bool)
    ensures
        res == ends_with(s@, p@),
{
    let pv = chars_of(p);
    ends_with_v(s, &pv)
}

/// Whether `p` (a string slice) is a prefix of `s`.
pub fn starts_with_str(s: &Vec<char>, p: &str) -> (res: bool)
    ensures
        res == starts_with(s@, p@),
{
    let pv = chars_of(p);
    starts_with_v(s, &pv)
}

/// Whether `pat` occurs in `s` at `i`.
fn occurs_at_v(s: &Vec<char>, pat: &Vec<char>, i: usize) -> (res: bool)
    requires
        i + pat.len() <= s.len(),
    ensures
        res == occurs_at(s@, pat@, i as int),
{
    let mut k: usize = 0;
    while k < pat.len()
        invariant
            i + pat.len() <= s.len(),
            k <= pat.len(),
            forall|m: int| 0 <= m < k ==> s@[i + m] == pat@[m],
        decreases pat.len() - k,
    {
        if s[i + k] != pat[k] {
            assert(s@.subrange(i as int, i + pat.len())[k as int] != pat@[k as int]);
            return false;
        }
        k = k + 1;
    }
    assert(s@.subrange(i as int, i + pat.len()) =~= pat@);
    true
}

/// The first index at which `pat` occurs in `s`.
pub fn find_v(s: &Vec<char>, pat: &Vec<char>) -> (res: Option<usize>)
    ensures
        match res {
            Some(i) => first_occurrence(s@, pat@, i as int),
            None => forall|i: int| !occurs_at(s@, pat@, i),
        },
{
    if pat.len() > s.len() {
        return None;
    }
    if pat.len() == 0 {
        assert(s@.subrange(0, 0) =~= pat@);
        return Some(0);
    }
    let mut i: usize = 0;
    let last = s.len() - pat.len();
    while i <= last
        invariant
            1 <= pat.len() <= s.len(),
            last == s.len() - pat.len(),
            i <= last + 1,
            forall|j: int| 0 <= j < i ==> !occurs_at(s@, pat@, j),
        decreases last + 1 - i,
    {
        if occurs_at_v(s, pat, i) {
            return Some(i);
        }
        i = i + 1;
    }
    None
}

/// Splits `s` at the first occurrence of `pat`.
pub fn split_once_v(s: &Vec<char>, pat: &Vec<char>) -> (res: Option<(Vec<char>, Vec<char>)>)
    ensures
        match res {
            Some(p) => split_once(s@, pat@) == Some((p.0@, p.1@)),
            None => split_once(s@, pat@) is None,
        },
{
    match find_v(s, pat) {
        Some(i) => {
            let a = slice_of(s, 0, i);
            let b = slice_of(s, i + pat.len(), s.len());
            proof {
                let j = choose|j: int| first_occurrence(s@, pat@, j);
                lemma_first_occurrence_unique(s@, pat@, i as int, j);
                assert(a@ =~= s@.take(i as int));
                assert(b@ =~= s@.skip(i + pat.len()));
            }
            Some((a, b))
        },
        None => None,
    }
}

/// Splits `s` at the first occurrence of the string slice `pat`.
pub fn split_once_str(s: &Vec<char>, pat: &str) -> (res: Option<(Vec<char>, Vec<char>)>)
    ensures
        match res {
            Some(p) => split_once(s@, pat@) == Some((p.0@, p.1@)),
            None => split_once(s@, pat@) is None,
        },
{
    let pv = chars_of(pat);
    split_once_v(s, &pv)
}

/// The first index of `c` in `s`.
pub fn find_char_v(s: &Vec<char>, c: char) -> (res: Option<usize>)
    ensures
        match res {
            Some(i) => find_char(s@, c) == Some(i as int) && i < s@.len() && s@[i as int] == c,
            None => find_char(s@, c) is None,
        },
{
    let pat: Vec<char> = vec![c];
    assert(pat@ =~= seq![c]);
    match split_once_v(s, &pat) {
        Some(p) => {
            let i = p.0.len();
            proof {
                let j = choose|j: int| first_occurrence(s@, pat@, j);
                assert(first_occurrence(s@, pat@, j));
                assert(s@.subrange(j, j + 1)[0] == s@[j]);
            }
            Some(i)
        },
        None => None,
    }
}

/// The pieces of `s` between occurrences of `sep`.
pub fn split_char_v(s: &Vec<char>, sep: char) -> (res: Vec<Vec<char>>)
    ensures
        views(res@) == split_char(s@, sep),
{
    let mut done: Vec<Vec<char>> = Vec::new();
    let mut cur: Vec<char> = Vec::new();
    for i in 0..s.len()
        invariant
            views(done@).push(cur@) == split_char(s@.take(i as int), sep),
    {
        proof {
            lemma_split_nonempty(s@.take(i as int), sep);
            assert(s@.take(i + 1).drop_last() =~= s@.take(i as int));
            assert(s@.take(i + 1).last() == s@[i as int]);
        }
        if s[i] == sep {
            let ghost before = views(done@);
            let ghost cur_before = cur@;
            let finished = cur;
            done.push(finished);
            cur = Vec::new();
            assert(views(done@) =~= before.push(cur_before));
            assert(views(done@).push(cur@) =~= before.push(cur_before).push(
                Seq::<char>::empty(),
            ));
        } else {
            let ghost before = views(done@);
            let ghost cur_before = cur@;
            cur.push(s[i]);
            assert(views(done@).push(cur@) =~= before.push(cur_before).update(
                before.len() as int,
                cur_before.push(s@[i as int]),
            ));
        }
    }
    assert(s@.take(s.len() as int) =~= s@);
    let ghost before = views(done@);
    done.push(cur);
    assert(views(done@) =~= before.push(cur@));
    done
}

/// `l` without one trailing carriage return.
fn strip_cr_v(l: &Vec<char>) -> (res: Vec<char>)
    ensures
        res@ == strip_cr(l@),
{
    if l.len() > 0 && l[l.len() - 1] == '\r' {
        slice_of(l, 0, l.len() - 1)
    } else {
        slice_of(l, 0, l.len())
    }
}

/// The lines of `s`.
pub fn lines_v(s: &Vec<char>) -> (res: Vec<Vec<char>>)
    ensures
        views(res@) == lines(s@),
{
    let pieces = split_char_v(s, '\n');
    proof {
        lemma_split_nonempty(s@, '\n');
    }
    let n = pieces.len() - 1;
    let ghost p = split_char(s@, '\n');
    let mut out: Vec<Vec<char>> = Vec::new();
    for i in 0..n
        invariant
            n == pieces.len() - 1,
            views(pieces@) == p,
            views(out@) == p.take(i as int).map_values(|l: Seq<char>| strip_cr(l)),
    {
        let ghost before = views(out@);
        let l = strip_cr_v(&pieces[i]);
        let ghost lv = l@;
        out.push(l);
        assert(p[i as int] == pieces@[i as int]@);
        assert(views(out@) =~= before.push(lv));
        assert(before.push(lv) =~= p.take(i + 1).map_values(|l: Seq<char>| strip_cr(l)));
    }
    
    if pieces[n].len() > 0 {
        let ghost before = views(out@);
        let last = slice_of(&pieces[n], 0, pieces[n].len());
        let ghost lv = last@;
        assert(p[n as int] == pieces@[n as int]@);
        out.push(last);
        assert(lv =~= p[n as int]);
        assert(views(out@) =~= before.push(p[n as int]));
    }
    out
}

/// The decimal rendering of `n`.
pub fn decimal_v(n: u64) -> (res: Vec<char>)
    ensures
        res@ == decimal(n as nat),
    decreases n,
{
    if n < 10 {
        let c = ((48 + n) as u8) as char;
        vec![c]
    } else {
        let mut v = decimal_v(n / 10);
        let c = ((48 + n % 10) as u8) as char;
        v.push(c);
        v
    }
}

/// The decimal rendering of a signed number (`i32::to_string`): a minus sign before
/// the digits of a negative one.
pub open spec fn signed_decimal(n: int) -> Seq<char> {
    if n < 0 {
        "-"@ + decimal((-n) as nat)
    } else {
        decimal(n as nat)
    }
}

/// The decimal rendering of `n`.
pub fn decimal_i32(n: i32) -> (res: Vec<char>)
    ensures
        res@ == signed_decimal(n as int),
{
    if n < 0 {
        let m: u64 = (-(n as i64)) as u64;
        let mut out = chars_of("-");
        let d = decimal_v(m);
        append(&mut out, &d);
        out
    } else {
        decimal_v(n as u64)
    }
}

/// The decimal rendering of `n` as a `String` (`u64::to_string`).
pub fn decimal_string(n: u64) -> (res: String)
    ensures
        res@ == decimal(n as nat),
{
    let v = decimal_v(n);
    string_of(&v)
}

/// Parses `s` as a `u64` the way `str::parse::<u64>` does.
pub fn parse_u64_v(s: &Vec<char>) -> (res: Option<u64>)
    ensures
        res == parse_u64(s@),
{
    let start: usize = if s.len() > 0 && s[0] == '+' {
        1
    } else {
        0
    };
    let ghost d = if s@.len() > 0 && s@[0] == '+' {
        s@.drop_first()
    } else {
        s@
    };
    assert(d =~= s@.skip(start as int));
    assert(parse_u64(s@) == parse_digits(d));
    if start >= s.len() {
        return None;
    }
    let mut k = start;
    while k < s.len()
        invariant
            start <= k <= s.len(),
            start < s.len(),
            d =~= s@.skip(start as int),
            parse_u64(s@) == parse_digits(d),
            forall|m: int| 0 <= m < k - start ==> '0' <= #[trigger] d[m] <= '9',
        decreases s.len() - k,
    {
        if !('0' <= s[k] && s[k] <= '9') {
            assert(!all_digits(d)) by {
                assert(!('0' <= d[k - start] <= '9'));
            }
            return None;
        }
        k = k + 1;
    }
    assert(all_digits(d));
    let mut v: u64 = 0;
    let mut i = start;
    while i < s.len()
        invariant
            start <= i <= s.len(),
            start < s.len(),
            d =~= s@.skip(start as int),
            parse_u64(s@) == parse_digits(d),
            all_digits(d),
            v == digits_value(d.take(i - start)),
        decreases s.len() - i,
    {
        let ghost j = i - start;
        proof {
            assert(d.take(j + 1).drop_last() =~= d.take(j));
            assert(d.take(j + 1).last() == d[j]);
            assert('0' <= d[j] <= '9');
        }
        let dv = (s[i] as u32 - 48) as u64;
        assert(dv == (d[j] as nat - 48));
        match v.checked_mul(10) {
            Some(m) => match m.checked_add(dv) {
                Some(nv) => {
                    v = nv;
                },
                None => {
                    proof {
                        lemma_digits_prefix_le(d, j + 1);
                    }
                    return None;
                },
            },
            None => {
                proof {
                    lemma_digits_prefix_le(d, j + 1);
                }
                return None;
            },
        }
        i = i + 1;
    }
    assert(d.take(d.len() as int) =~= d);
    Some(v)
}

/// Two lowercase hexadecimal digits per byte.
pub fn hex_lower_v(b: &[u8]) -> (res: Vec<char>)
    ensures
        res@ == hex_lower(b@),
{
    let mut out: Vec<char> = Vec::new();
    for i in 0..b.len()
        invariant
            out@ == hex_lower(b@.take(i as int)),
    {
        assert(b@.take(i + 1).drop_last() =~= b@.take(i as int));
        assert(b@.take(i + 1).last() == b@[i as int]);
        let hi = b[i] / 16;
        let lo = b[i] % 16;
        let ch = if hi < 10 {
            (48 + hi) as char
        } else {
            (87 + hi) as char
        };
        let cl = if lo < 10 {
            (48 + lo) as char
        } else {
            (87 + lo) as char
        };
        out.push(ch);
        out.push(cl);
    }
    assert(b@.take(b.len() as int) =~= b@);
    out
}

/// Joins `pieces` with `sep` between consecutive pieces.
pub fn join_v(pieces: &Vec<Vec<char>>, sep: &Vec<char>) -> (res: Vec<char>)
    ensures
        res@ == join(views(pieces@), sep@),
{
    let mut out: Vec<char> = Vec::new();
    for i in 0..pieces.len()
        invariant
            out@ == join(views(pieces@).take(i as int), sep@),
    {
        let ghost t = views(pieces@).take(i + 1);
        assert(t.drop_last() =~= views(pieces@).take(i as int));
        assert(t.last() == pieces[i as int]@);
        if i > 0 {
            append(&mut out, sep);
        } else {
            assert(views(pieces@).take(0) =~= Seq::<Seq<char>>::empty());
        }
        append(&mut out, &pieces[i]);
        if i == 0 {
            assert(out@ =~= pieces[0]@);
        }
    }
    assert(views(pieces@).take(pieces.len() as int) =~= views(pieces@));
    out
}

} // verus!
