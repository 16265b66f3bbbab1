//! BLAKE3 content hashes and the Merkle root over a package's files.

use vstd::prelude::*;
use crate::text::{append, chars_of, hex_lower, hex_lower_v, join, join_v, string_of, views};

verus! {

// ------------------------------------------------------------------ hashing

/// What `blake3::hash` computes for `data`: its 32-byte BLAKE3 digest.
pub uninterp spec fn blake3_digest(data: Seq<u8>) -> Seq<u8>;

/// Calls `blake3::hash`; the result is the named digest of the bytes, 32 bytes long
/// (`blake3::OUT_LEN`).
#[verifier::external_body]
fn blake3_hash(data: &[u8]) -> (res: Vec<u8>)
    ensures
        res@ == blake3_digest(data@),
        res@.len() == 32,
{
    blake3::hash(data).as_bytes().to_vec()
}

/// The lowercase hexadecimal BLAKE3 digest of `data` (`blake3::Hash::to_hex`).
pub open spec fn blake3_hex(data: Seq<u8>) -> Seq<char> {
    hex_lower(blake3_digest(data))
}

/// The content hash of `data` as `blake3:<hex>`.
pub open spec fn content_hash(data: Seq<u8>) -> Seq<char> {
    "blake3:"@ + blake3_hex(data)
}

/// A hexadecimal rendering has two digits per byte.
pub proof fn lemma_hex_len(b: Seq<u8>)
    ensures
        hex_lower(b).len() == 2 * b.len(),
    decreases b.len(),
{
    if b.len() > 0 {
        lemma_hex_len(b.drop_last());
    }
}

/// The lowercase hexadecimal BLAKE3 digest of `data`: 64 characters.
pub fn hex_digest(data: &[u8]) -> (res: String)
    ensures
        res@ == blake3_hex(data@),
        res@.len() == 64,
{
    let d = blake3_hash(data);
    let h = hex_lower_v(d.as_slice());
    proof {
        lemma_hex_len(d@);
    }
    string_of(&h)
}

/// The content hash of `data` as `blake3:<hex>`.
pub fn hash_bytes(data: &[u8]) -> (res: String)
    ensures
        res@ == content_hash(data@),
{
    let mut out = chars_of("blake3:");
    let d = blake3_hash(data);
    let h = hex_lower_v(d.as_slice());
    append(&mut out, &h);
    string_of(&out)
}

// ------------------------------------------------------------------ ordering text

/// `a` comes before `b` in lexicographic order of characters (the order of `str`,
/// since UTF-8 keeps the order of code points).
pub open spec fn lex_lt(a: Seq<char>, b: Seq<char>) -> bool
    decreases a.len(),
{
    if a.len() == 0 {
        b.len() > 0
    } else if b.len() == 0 {
        false
    } else if a[0] != b[0] {
        a[0] < b[0]
    } else {
        lex_lt(a.drop_first(), b.drop_first())
    }
}

/// `a` comes before `b` or equals it.
pub open spec fn lex_le(a: Seq<char>, b: Seq<char>) -> bool {
    a == b || lex_lt(a, b)
}

/// In lexicographic order.
pub open spec fn lex_sorted(s: Seq<Seq<char>>) -> bool {
    forall|i: int, j: int| 0 <= i <= j < s.len() ==> lex_le(s[i], s[j])
}

/// The lexicographic order is strict.
pub proof fn lemma_lex_asym(a: Seq<char>, b: Seq<char>)
    ensures
        lex_lt(a, b) ==> !lex_lt(b, a),
        !lex_lt(a, a),
    decreases a.len(),
{
    if a.len() > 0 && b.len() > 0 && a[0] == b[0] {
        lemma_lex_asym(a.drop_first(), b.drop_first());
    }
    if a.len() > 0 {
        lemma_lex_asym(a.drop_first(), a.drop_first());
    }
}

/// Any two different texts are ordered.
pub proof fn lemma_lex_total(a: Seq<char>, b: Seq<char>)
    ensures
        a == b || lex_lt(a, b) || lex_lt(b, a),
    decreases a.len(),
{
    if a.len() > 0 && b.len() > 0 && a[0] == b[0] {
        lemma_lex_total(a.drop_first(), b.drop_first());
        if a.drop_first() == b.drop_first() {
            assert(a =~= seq![a[0]] + a.drop_first());
            assert(b =~= seq![b[0]] + b.drop_first());
        }
    } else if a.len() == 0 && b.len() == 0 {
        assert(a =~= b);
    }
}

/// The lexicographic order is transitive.
pub proof fn lemma_lex_trans(a: Seq<char>, b: Seq<char>, c: Seq<char>)
    requires
        lex_lt(a, b),
        lex_lt(b, c),
    ensures
        lex_lt(a, c),
    decreases a.len(),
{
    if a.len() > 0 && b.len() > 0 && c.len() > 0 && a[0] == b[0] && b[0] == c[0] {
        lemma_lex_trans(a.drop_first(), b.drop_first(), c.drop_first());
    }
}

/// Whether `a` comes before `b`.
pub fn lex_less(a: &Vec<char>, b: &Vec<char>) -> (res: bool)
    ensures
        res == lex_lt(a@, b@),
{
    let mut i: usize = 0;
    assert(a@.skip(0) =~= a@);
    assert(b@.skip(0) =~= b@);
    while i < a.len() && i < b.len() && a[i] == b[i]
        invariant
            i <= a.len(),
            i <= b.len(),
            lex_lt(a@, b@) == lex_lt(a@.skip(i as int), b@.skip(i as int)),
        decreases a.len() - i,
    {
        assert(a@.skip(i as int).drop_first() =~= a@.skip(i + 1));
        assert(b@.skip(i as int).drop_first() =~= b@.skip(i + 1));
        i = i + 1;
    }
    if i == a.len() {
        i < b.len()
    } else if i == b.len() {
        false
    } else {
        assert(a@.skip(i as int)[0] == a@[i as int]);
        assert(b@.skip(i as int)[0] == b@[i as int]);
        a[i] < b[i]
    }
}

// ------------------------------------------------------------------ sorting

/// Two sorted sequences with the same elements are equal.
pub proof fn lemma_sorted_unique(s: Seq<Seq<char>>, t: Seq<Seq<char>>)
    requires
        lex_sorted(s),
        lex_sorted(t),
        s.to_multiset() == t.to_multiset(),
    ensures
        s == t,
    decreases s.len(),
{
    broadcast use vstd::seq_lib::group_to_multiset_ensures;
    vstd::seq_lib::to_multiset_len(s);
    vstd::seq_lib::to_multiset_len(t);
    assert(s.len() == t.len());
    if s.len() > 0 {
        assert(t.to_multiset().contains(s[0]));
        assert(s.to_multiset().contains(t[0]));
        let i = choose|i: int| 0 <= i < t.len() && t[i] == s[0];
        let j = choose|j: int| 0 <= j < s.len() && s[j] == t[0];
        assert(lex_le(t[0], t[i]));
        assert(lex_le(s[0], s[j]));
        lemma_lex_asym(s[0], t[0]);
        assert(s[0] == t[0]);
        vstd::seq_lib::to_multiset_remove(s, 0);
        vstd::seq_lib::to_multiset_remove(t, 0);
        assert(s.remove(0) =~= s.drop_first());
        assert(t.remove(0) =~= t.drop_first());
        lemma_sorted_unique(s.drop_first(), t.drop_first());
        assert forall|k: int| 0 <= k < s.len() implies s[k] == t[k] by {
            if k > 0 {
                assert(s[k] == s.drop_first()[k - 1]);
                assert(t[k] == t.drop_first()[k - 1]);
            }
        }
        assert(s =~= t);
    }
}

/// The texts in lexicographic order: the sorted sequence with the same elements.
pub open spec fn lex_sort(s: Seq<Seq<char>>) -> Seq<Seq<char>> {
    choose|t: Seq<Seq<char>>| lex_sorted(t) && t.to_multiset() == s.to_multiset()
}

/// Inserts `x` into the sorted `v` after the elements not above it.
fn insert_lex(v: &mut Vec<Vec<char>>, x: Vec<char>)
    requires
        lex_sorted(views(old(v)@)),
    ensures
        lex_sorted(views(final(v)@)),
        views(final(v)@).to_multiset() == views(old(v)@).to_multiset().insert(x@),
{
    let ghost xv = x@;
    let mut k: usize = 0;
    while k < v.len() && !lex_less(&x, &v[k])
        invariant
            k <= v.len(),
            xv == x@,
            forall|i: int| 0 <= i < k ==> !lex_lt(xv, #[trigger] v@[i]@),
        decreases v.len() - k,
    {
        k = k + 1;
    }
    let ghost before = views(v@);
    v.insert(k, x);
    proof {
        assert(views(v@) =~= before.insert(k as int, xv));
        vstd::seq_lib::to_multiset_insert(before, k as int, xv);
        let after = views(v@);
        assert forall|i: int, j: int| 0 <= i <= j < after.len() implies lex_le(after[i], after[j]) by {
            if i < k && j == k {
                assert(after[i] == before[i]);
                lemma_lex_total(before[i], xv);
            } else if i == k && j > k {
                assert(after[j] == before[j - 1]);
                assert(lex_lt(xv, before[k as int]));
                assert(lex_le(before[k as int], before[j - 1]));
                if before[k as int] != before[j - 1] {
                    lemma_lex_trans(xv, before[k as int], before[j - 1]);
                }
            } else if i < k && j > k {
                assert(after[i] == before[i]);
                assert(after[j] == before[j - 1]);
            } else if i > k {
                assert(after[i] == before[i - 1]);
                assert(after[j] == before[j - 1]);
            } else if j < k {
                assert(after[i] == before[i]);
                assert(after[j] == before[j]);
            }
        }
    }
}

/// The texts in lexicographic order.
pub fn sort_lex(texts: &Vec<String>) -> (res: Vec<Vec<char>>)
    ensures
        views(res@) == lex_sort(texts@.map_values(|s: String| s@)),
{
    let ghost all = texts@.map_values(|s: String| s@);
    let mut out: Vec<Vec<char>> = Vec::new();
    proof {
        assert(views(out@) =~= Seq::<Seq<char>>::empty());
        assert(all.take(0) =~= Seq::<Seq<char>>::empty());
        vstd::seq_lib::to_multiset_len(views(out@));
        vstd::seq_lib::to_multiset_len(all.take(0));
    }
    for i in 0..texts.len()
        invariant
            all == texts@.map_values(|s: String| s@),
            lex_sorted(views(out@)),
            views(out@).to_multiset() == all.take(i as int).to_multiset(),
    {
        let c = chars_of(texts[i].as_str());
        insert_lex(&mut out, c);
        proof {
            assert(all.take(i + 1) =~= all.take(i as int).push(all[i as int]));
            vstd::seq_lib::to_multiset_build(all.take(i as int), all[i as int]);
        }
    }
    proof {
        assert(all.take(texts.len() as int) =~= all);
        let t = lex_sort(all);
        assert(lex_sorted(views(out@)) && views(out@).to_multiset() == all.to_multiset());
        lemma_sorted_unique(views(out@), t);
    }
    out
}

// ------------------------------------------------------------------ the Merkle root

/// The Merkle root of a package's content hashes: the content hash of the hashes in
/// lexicographic order, one per line.
pub open spec fn merkle_root_of(hashes: Seq<Seq<char>>) -> Seq<char> {
    content_hash(vstd::utf8::encode_utf8(join(lex_sort(hashes), "\n"@)))
}

/// The Merkle root of a package's content hashes; with no hashes, the hash of nothing.
pub fn merkle_root(hashes: &Vec<String>) -> (res: String)
    ensures
        res@ == merkle_root_of(hashes@.map_values(|s: String| s@)),
{
    if hashes.len() == 0 {
        proof {
            let all = hashes@.map_values(|s: String| s@);
            assert(all =~= Seq::<Seq<char>>::empty());
            let t = lex_sort(all);
            vstd::seq_lib::to_multiset_len(all);
            assert(lex_sorted(Seq::<Seq<char>>::empty()));
            vstd::seq_lib::to_multiset_len(Seq::<Seq<char>>::empty());
            assert(Seq::<Seq<char>>::empty().to_multiset() =~= all.to_multiset());
            lemma_sorted_unique(t, Seq::<Seq<char>>::empty());
            vstd::seq_lib::to_multiset_len(t);
            assert(join(t, "\n"@) =~= Seq::<char>::empty());
            assert(vstd::utf8::encode_utf8(Seq::<char>::empty()) =~= Seq::<u8>::empty()) by {
                reveal_with_fuel(vstd::utf8::encode_utf8, 1);
            }
        }
        let empty: Vec<u8> = Vec::new();
        return hash_bytes(empty.as_slice());
    }
    let sorted = sort_lex(hashes);
    let sep = chars_of("\n");
    let combined = join_v(&sorted, &sep);
    let text = string_of(&combined);
    hash_bytes(text.as_str().as_bytes())
}

/// The Merkle root does not depend on the order in which the hashes come.
pub proof fn lemma_merkle_root_order_independent(a: Seq<Seq<char>>, b: Seq<Seq<char>>)
    requires
        a.to_multiset() == b.to_multiset(),
    ensures
        merkle_root_of(a) == merkle_root_of(b),
{
}

} // verus!
