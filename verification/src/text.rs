//! Character-level text building blocks: lowercase hexadecimal, the
//! hyphenated form of a 128-bit identifier, and substring replacement.
use vstd::prelude::*;

verus! {

/// The lowercase hexadecimal digit of a value below sixteen.
pub open spec fn hex_digit(n: int) -> char {
    if n < 10 {
        (n + 48) as char
    } else {
        (n + 87) as char
    }
}

/// Two lowercase hexadecimal digits per byte, high nibble first.
pub open spec fn hex_lower(bytes: Seq<u8>) -> Seq<char> {
    Seq::new(
        2 * bytes.len(),
        |i: int|
            if i % 2 == 0 {
                hex_digit(bytes[i / 2] as int / 16)
            } else {
                hex_digit(bytes[i / 2] as int % 16)
            },
    )
}

/// The sixteen big-endian bytes of a 128-bit value.
pub open spec fn be_bytes(v: u128) -> Seq<u8> {
    Seq::new(16, |k: int| ((v >> ((8 * (15 - k)) as u128)) & 0xff) as u8)
}

/// The canonical text of an identifier: 32 lowercase hexadecimal digits of
/// its big-endian bytes, grouped 8-4-4-4-12 and joined by hyphens.
pub open spec fn uuid_text(v: u128) -> Seq<char> {
    let h = hex_lower(be_bytes(v));
    h.subrange(0, 8) + seq!['-'] + h.subrange(8, 12) + seq!['-'] + h.subrange(12, 16) + seq!['-']
        + h.subrange(16, 20) + seq!['-'] + h.subrange(20, 32)
}

/// The text of an identifier has 36 characters: 32 digits and 4 hyphens.
pub proof fn lemma_uuid_text_len(v: u128)
    ensures
        uuid_text(v).len() == 36,
{
    assert(hex_lower(be_bytes(v)).len() == 32);
}

/// Replaces every non-overlapping occurrence of `pat` in `s`, scanning from
/// the left, by `rep` (the meaning of `str::replace` for a non-empty
/// pattern).
pub open spec fn replace_all(s: Seq<char>, pat: Seq<char>, rep: Seq<char>) -> Seq<char>
    decreases s.len(),
{
    if pat.len() == 0 || s.len() < pat.len() {
        s
    } else if s.take(pat.len() as int) == pat {
        rep + replace_all(s.skip(pat.len() as int), pat, rep)
    } else {
        seq![s[0]] + replace_all(s.skip(1), pat, rep)
    }
}

/// `pat` occurs in `s` starting at position `i`.
pub open spec fn occurs_at(s: Seq<char>, pat: Seq<char>, i: int) -> bool {
    0 <= i && i + pat.len() <= s.len() && s.subrange(i, i + pat.len()) == pat
}

/// `pat` occurs somewhere in `s`.
pub open spec fn occurs_in(s: Seq<char>, pat: Seq<char>) -> bool {
    exists|i: int| #[trigger] occurs_at(s, pat, i)
}

/// Text in which a non-empty pattern does not occur is left unchanged.
pub proof fn lemma_replace_absent(s: Seq<char>, pat: Seq<char>, rep: Seq<char>)
    requires
        pat.len() > 0,
        !occurs_in(s, pat),
    ensures
        replace_all(s, pat, rep) == s,
    decreases s.len(),
{
    if s.len() >= pat.len() {
        assert(!occurs_at(s, pat, 0));
        assert(s.subrange(0, pat.len() as int) =~= s.take(pat.len() as int));
        let t = s.skip(1);
        assert forall|i: int| !#[trigger] occurs_at(t, pat, i) by {
            assert(!occurs_at(s, pat, i + 1));
            if 0 <= i && i + pat.len() <= t.len() {
                assert(t.subrange(i, i + pat.len()) =~= s.subrange(i + 1, i + 1 + pat.len()));
            }
        }
        lemma_replace_absent(t, pat, rep);
        assert(seq![s[0]] + t =~= s);
    }
}

/// Removing a leading occurrence of the pattern: replacing in `pat + s`
/// gives `rep` followed by the replacement in `s`.
pub proof fn lemma_replace_leading(s: Seq<char>, pat: Seq<char>, rep: Seq<char>)
    requires
        pat.len() > 0,
    ensures
        replace_all(pat + s, pat, rep) == rep + replace_all(s, pat, rep),
{
    let t = pat + s;
    assert(t.take(pat.len() as int) =~= pat);
    assert(t.skip(pat.len() as int) =~= s);
}

/// `c` does not occur in `s`.
pub open spec fn lacks_char(s: Seq<char>, c: char) -> bool {
    forall|i: int| 0 <= i < s.len() ==> s[i] != c
}

/// Text at whose positions the pattern does not start passes through:
/// replacing in `prefix + rest` gives `prefix` followed by the replacement
/// in `rest`.
pub proof fn lemma_replace_skips_prefix(prefix: Seq<char>, rest: Seq<char>, pat: Seq<char>, rep: Seq<char>)
    requires
        pat.len() > 0,
        forall|i: int| 0 <= i < prefix.len() ==> !#[trigger] occurs_at(prefix + rest, pat, i),
    ensures
        replace_all(prefix + rest, pat, rep) == prefix + replace_all(rest, pat, rep),
    decreases prefix.len(),
{
    let s = prefix + rest;
    if prefix.len() == 0 {
        assert(s =~= rest);
        assert(prefix + replace_all(rest, pat, rep) =~= replace_all(rest, pat, rep));
    } else if s.len() < pat.len() {
        assert(prefix + replace_all(rest, pat, rep) =~= s);
    } else {
        assert(!occurs_at(s, pat, 0));
        assert(s.subrange(0, pat.len() as int) =~= s.take(pat.len() as int));
        let p1 = prefix.skip(1);
        assert(s.skip(1) =~= p1 + rest);
        assert forall|i: int| 0 <= i < p1.len() implies !#[trigger] occurs_at(p1 + rest, pat, i) by {
            assert(!occurs_at(s, pat, i + 1));
            if i + pat.len() <= (p1 + rest).len() {
                assert((p1 + rest).subrange(i, i + pat.len()) =~= s.subrange(i + 1, i + 1 + pat.len()));
            }
        }
        lemma_replace_skips_prefix(p1, rest, pat, rep);
        assert(seq![s[0]] + (p1 + replace_all(rest, pat, rep)) =~= prefix + replace_all(rest, pat, rep));
    }
}

/// Where the pattern holds a character `pat[j]` that none of its earlier
/// characters is, and `prefix` does not hold that character, the first
/// occurrence in `prefix + pat + more` is the `pat` after `prefix`.
pub proof fn lemma_replace_after_unmarked(
    prefix: Seq<char>,
    more: Seq<char>,
    pat: Seq<char>,
    rep: Seq<char>,
    j: int,
)
    requires
        0 <= j < pat.len(),
        forall|k: int| 0 <= k < j ==> pat[k] != pat[j],
        lacks_char(prefix, pat[j]),
    ensures
        replace_all(prefix + (pat + more), pat, rep) == prefix + (rep + replace_all(more, pat, rep)),
{
    let rest = pat + more;
    let s = prefix + rest;
    assert forall|i: int| 0 <= i < prefix.len() implies !#[trigger] occurs_at(s, pat, i) by {
        if occurs_at(s, pat, i) {
            assert(s.subrange(i, i + pat.len())[j] == s[i + j]);
            if i + j < prefix.len() {
                assert(s[i + j] == prefix[i + j]);
            } else {
                assert(s[i + j] == pat[i + j - prefix.len()]);
            }
        }
    }
    lemma_replace_skips_prefix(prefix, rest, pat, rep);
    lemma_replace_leading(more, pat, rep);
}

/// A pattern with a character that the text lacks does not occur in it,
/// and the text is left unchanged.
pub proof fn lemma_replace_unmarked(s: Seq<char>, pat: Seq<char>, rep: Seq<char>, j: int)
    requires
        0 <= j < pat.len(),
        lacks_char(s, pat[j]),
    ensures
        replace_all(s, pat, rep) == s,
{
    assert forall|i: int| !#[trigger] occurs_at(s, pat, i) by {
        if occurs_at(s, pat, i) {
            assert(s.subrange(i, i + pat.len())[j] == s[i + j]);
        }
    }
    lemma_replace_absent(s, pat, rep);
}

/// Appends one character (`String::push`).
#[verifier::external_body]
pub(crate) fn push_char(s: &mut String, c: char)
    ensures
        final(s)@ == old(s)@.push(c),
{
    s.push(c)
}

/// Whether `pat` occurs in `s` at character position `i`.
fn matches_at(s: &str, pat: &str, i: usize) -> (res: bool)
    requires
        i + pat@.len() <= s@.len(),
        s@.len() <= usize::MAX,
    ensures
        res == (s@.subrange(i as int, i + pat@.len()) == pat@),
{
    let m = pat.unicode_len();
    let mut j: usize = 0;
    while j < m
        invariant
            m == pat@.len(),
            i + m <= s@.len(),
            s@.len() <= usize::MAX,
            j <= m,
            forall|k: int| 0 <= k < j ==> s@[i + k] == pat@[k],
        decreases m - j,
    {
        if s.get_char(i + j) != pat.get_char(j) {
            assert(s@.subrange(i as int, i + m)[j as int] != pat@[j as int]);
            return false;
        }
        j = j + 1;
    }
    assert(s@.subrange(i as int, i + m) =~= pat@);
    true
}

/// `str::replace` for a non-empty pattern, computed character by character.
pub fn replace_str(s: &str, pat: &str, rep: &str) -> (res: String)
    requires
        pat@.len() > 0,
    ensures
        res@ == replace_all(s@, pat@, rep@),
{
    let n = s.unicode_len();
    let m = pat.unicode_len();
    let mut out = String::new();
    let mut i: usize = 0;
    assert(s@.skip(0) =~= s@);
    while i < n
        invariant
            n == s@.len(),
            m == pat@.len(),
            m > 0,
            i <= n,
            replace_all(s@, pat@, rep@) == out@ + replace_all(s@.skip(i as int), pat@, rep@),
        decreases n - i,
    {
        let ghost x = s@.skip(i as int);
        if n - i >= m && matches_at(s, pat, i) {
            assert(x.take(m as int) =~= s@.subrange(i as int, i + m));
            assert(x.skip(m as int) =~= s@.skip(i + m));
            out.append(rep);
            i = i + m;
        } else {
            let c = s.get_char(i);
            assert(x.skip(1) =~= s@.skip(i + 1));
            if n - i >= m {
                assert(x.take(m as int) =~= s@.subrange(i as int, i + m));
            } else {
                assert(x.skip(1).len() < m);
                assert(x =~= seq![c] + x.skip(1));
            }
            push_char(&mut out, c);
            i = i + 1;
        }
    }
    assert(s@.skip(n as int).len() == 0);
    assert(out@ + s@.skip(n as int) =~= out@);
    out
}

/// Lowercase hexadecimal text of a byte string (`hex::encode`).
#[verifier::external_body]
pub(crate) fn hex_encode(data: &[u8]) -> (res: String)
    ensures
        res@ == hex_lower(data@),
{
    hex::encode(data)
}

/// The hyphenated lowercase text of an identifier (`Uuid`'s `Display`).
#[verifier::external_body]
pub(crate) fn uuid_to_string(id: u128) -> (res: String)
    ensures
        res@ == uuid_text(id),
{
    uuid::Uuid::from_u128(id).to_string()
}


/// Whether two texts are equal, compared character by character.
pub fn str_eq(a: &str, b: &str) -> (res: bool)
    ensures
        res == (a@ == b@),
{
    let n = a.unicode_len();
    let m = b.unicode_len();
    if n != m {
        return false;
    }
    let mut i: usize = 0;
    while i < n
        invariant
            n == a@.len(),
            m == b@.len(),
            n == m,
            i <= n,
            forall|k: int| 0 <= k < i ==> a@[k] == b@[k],
        decreases n - i,
    {
        if a.get_char(i) != b.get_char(i) {
            return false;
        }
        i = i + 1;
    }
    assert(a@ =~= b@);
    true
}

/// `String::from_utf8`: the text whose UTF-8 encoding the bytes are, or
/// `None` when they are not valid UTF-8.
#[verifier::external_body]
pub(crate) fn string_from_utf8(bytes: Vec<u8>) -> (res: Option<String>)
    ensures
        res is Some <==> vstd::utf8::valid_utf8(bytes@),
        res matches Some(s) ==> s@ == vstd::utf8::decode_utf8(bytes@),
{
    match String::from_utf8(bytes) {
        Ok(s) => Some(s),
        Err(_) => None,
    }
}

} // verus!
