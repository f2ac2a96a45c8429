//! Character-level tools the rest of the library reads and writes text with.
//!
//! Everything here works on `Seq<char>` in specifications and on `Vec<char>`
//! in code: a `&str` is turned into its characters once, read by index, and
//! turned back into a `String` once.

use vstd::prelude::*;
use vstd::string::*;
use vstd::std_specs::iter::IteratorSpec;

verus! {

broadcast use vstd::string::group_string_axioms;

// ---------------------------------------------------------------------------
// Specifications
// ---------------------------------------------------------------------------

/// The Unicode `White_Space` property, which is what `char::is_whitespace`,
/// `str::trim` and `str::split_whitespace` go by.
pub open spec fn is_ws(c: char) -> bool {
    ||| ('\u{9}' <= c && c <= '\u{d}')
    ||| c == ' '
    ||| c == '\u{85}'
    ||| c == '\u{a0}'
    ||| c == '\u{1680}'
    ||| ('\u{2000}' <= c && c <= '\u{200a}')
    ||| c == '\u{2028}'
    ||| c == '\u{2029}'
    ||| c == '\u{202f}'
    ||| c == '\u{205f}'
    ||| c == '\u{3000}'
}

/// Without its leading whitespace.
pub open spec fn trim_start(s: Seq<char>) -> Seq<char>
    decreases s.len(),
{
    if s.len() > 0 && is_ws(s[0]) {
        trim_start(s.drop_first())
    } else {
        s
    }
}

/// Without its trailing whitespace.
pub open spec fn trim_end(s: Seq<char>) -> Seq<char>
    decreases s.len(),
{
    if s.len() > 0 && is_ws(s.last()) {
        trim_end(s.drop_last())
    } else {
        s
    }
}

/// Without whitespace at either end, as `str::trim` gives it.
pub open spec fn trim(s: Seq<char>) -> Seq<char> {
    trim_end(trim_start(s))
}

/// What separates two pieces of a text.
pub enum Sep {
    /// One given character, as `str::split(char)` takes it.
    Char(char),
    /// Unicode whitespace, as `str::split_whitespace` takes it.
    Space,
    /// Anything that is neither a letter nor a digit.
    NonAlnum,
}

/// `char::is_alphanumeric`: the Unicode `Alphabetic` or `Numeric` property.
pub uninterp spec fn unicode_alphanumeric(c: char) -> bool;

/// `str::to_uppercase`: Unicode's full uppercase mapping, character by
/// character, where one character may become several.
pub uninterp spec fn unicode_uppercase(s: Seq<char>) -> Seq<char>;

/// Is `c` a separator of kind `k`?
pub open spec fn is_sep(k: Sep, c: char) -> bool {
    match k {
        Sep::Char(x) => c == x,
        Sep::Space => is_ws(c),
        Sep::NonAlnum => !unicode_alphanumeric(c),
    }
}

/// The pieces between the separators, empty ones included, as `str::split`
/// yields them: `n` separators give `n + 1` pieces.
pub open spec fn pieces_by(s: Seq<char>, k: Sep) -> Seq<Seq<char>>
    decreases s.len(),
{
    if s.len() == 0 {
        seq![Seq::<char>::empty()]
    } else {
        let before = pieces_by(s.drop_last(), k);
        if is_sep(k, s.last()) {
            before.push(Seq::<char>::empty())
        } else {
            before.update(before.len() - 1, before.last().push(s.last()))
        }
    }
}

/// The pieces between occurrences of one character.
pub open spec fn pieces(s: Seq<char>, sep: char) -> Seq<Seq<char>> {
    pieces_by(s, Sep::Char(sep))
}

/// The pieces that are not empty, in order.
pub open spec fn nonempty(ps: Seq<Seq<char>>) -> Seq<Seq<char>>
    decreases ps.len(),
{
    if ps.len() == 0 {
        Seq::empty()
    } else {
        let before = nonempty(ps.drop_last());
        if ps.last().len() > 0 {
            before.push(ps.last())
        } else {
            before
        }
    }
}

/// The words of a text, as `str::split_whitespace` yields them.
pub open spec fn words(s: Seq<char>) -> Seq<Seq<char>> {
    nonempty(pieces_by(s, Sep::Space))
}

/// The index where `p` first occurs in `s`, if it does.
pub open spec fn find(s: Seq<char>, p: Seq<char>) -> Option<int>
    decreases s.len(),
{
    if s.len() < p.len() {
        None
    } else if s.len() == 0 {
        if p.len() == 0 { Some(0) } else { None }
    } else {
        match find(s.drop_last(), p) {
            Some(i) => Some(i),
            None => if s.skip(s.len() - p.len()) == p {
                Some(s.len() - p.len())
            } else {
                None
            },
        }
    }
}

/// Does `p` occur in `s`?
pub open spec fn contains(s: Seq<char>, p: Seq<char>) -> bool {
    exists|i: int| 0 <= i && i + p.len() <= s.len() && #[trigger] s.subrange(i, i + p.len()) == p
}

/// Does `s` start with `p`?
pub open spec fn starts_with(s: Seq<char>, p: Seq<char>) -> bool {
    p.len() <= s.len() && s.take(p.len() as int) == p
}

/// The decimal digit for `d`, which is below ten.
pub open spec fn digit(d: nat) -> char {
    ((48 + d) as u32) as char
}

/// The decimal writing of `n`, without sign or leading zero.
pub open spec fn dec(n: nat) -> Seq<char>
    decreases n,
{
    if n < 10 {
        seq![digit(n)]
    } else {
        dec(n / 10).push(digit(n % 10))
    }
}

/// The decimal writing of a signed number, with a minus sign when negative.
pub open spec fn signed_dec(n: int) -> Seq<char> {
    if n < 0 {
        seq!['-'] + dec((-n) as nat)
    } else {
        dec(n as nat)
    }
}

/// The ASCII lowercase of one character; anything else is left alone.
pub open spec fn ascii_lower(c: char) -> char {
    if 'A' <= c && c <= 'Z' {
        ((c as u32) + 32) as char
    } else {
        c
    }
}

/// An ASCII letter or digit.
pub open spec fn is_ascii_alnum(c: char) -> bool {
    ('a' <= c && c <= 'z') || ('A' <= c && c <= 'Z') || ('0' <= c && c <= '9')
}

/// The ASCII uppercase of one character; anything else is left alone.
pub open spec fn ascii_upper(c: char) -> char {
    if 'a' <= c && c <= 'z' {
        ((c as u32) - 32) as char
    } else {
        c
    }
}

/// `str::to_ascii_uppercase`.
pub open spec fn to_ascii_upper(s: Seq<char>) -> Seq<char> {
    s.map_values(|c: char| ascii_upper(c))
}

/// `str::to_ascii_lowercase`.
pub open spec fn to_ascii_lower(s: Seq<char>) -> Seq<char> {
    s.map_values(|c: char| ascii_lower(c))
}

// ---------------------------------------------------------------------------
// Lemmas
// ---------------------------------------------------------------------------

/// Extending a text by one character: the pieces of the longer text.
pub proof fn lemma_pieces_step(s: Seq<char>, i: int, k: Sep)
    requires
        0 <= i < s.len(),
    ensures
        pieces_by(s.take(i + 1), k) == ({
            let before = pieces_by(s.take(i), k);
            if is_sep(k, s[i]) {
                before.push(Seq::<char>::empty())
            } else {
                before.update(before.len() - 1, before.last().push(s[i]))
            }
        }),
{
    assert(s.take(i + 1).drop_last() =~= s.take(i));
}

/// A vector of characters, seen deeply, is its characters.
pub proof fn lemma_chars_deep_view(v: Vec<char>)
    ensures
        v.deep_view() == v@,
{
    assert(v.deep_view() =~= v@);
}

/// There is always at least one piece.
pub proof fn lemma_pieces_len(s: Seq<char>, k: Sep)
    ensures
        pieces_by(s, k).len() >= 1,
    decreases s.len(),
{
    if s.len() > 0 {
        lemma_pieces_len(s.drop_last(), k);
    }
}

// ---------------------------------------------------------------------------
// Code
// ---------------------------------------------------------------------------

/// Appends one character. `String::push`.
#[verifier::external_body]
pub fn push_char(s: &mut String, c: char)
    ensures
        final(s)@ == old(s)@.push(c),
{
    s.push(c);
}

/// The characters of a string slice, in order.
pub fn chars_of(s: &str) -> (r: Vec<char>)
    ensures
        r@ == s@,
{
    let mut out: Vec<char> = Vec::new();
    let mut it = s.chars();
    loop
        invariant
            out@ + it.remaining() == s@,
            it.obeys_prophetic_iter_laws(),
            it.decrease() is Some,
        decreases it.decrease()->0,
    {
        match it.next() {
            Some(c) => {
                out.push(c);
                assert(out@ + it.remaining() =~= s@);
            },
            None => {
                assert(out@ =~= s@);
                return out;
            },
        }
    }
}

/// A `String` holding exactly these characters.
pub fn string_of(cs: &Vec<char>) -> (r: String)
    ensures
        r@ == cs@,
{
    let mut out = String::new();
    let mut i: usize = 0;
    while i < cs.len()
        invariant
            i <= cs.len(),
            out@ == cs@.take(i as int),
        decreases cs.len() - i,
    {
        push_char(&mut out, cs[i]);
        assert(cs@.take(i as int).push(cs@[i as int]) =~= cs@.take(i + 1));
        i = i + 1;
    }
    assert(cs@.take(cs.len() as int) =~= cs@);
    out
}

/// A `String` from a literal or any slice.
pub fn owned(s: &str) -> (r: String)
    ensures
        r@ == s@,
{
    String::from_str(s)
}

/// Appends a slice to a `String`.
pub fn append(s: &mut String, other: &str)
    ensures
        final(s)@ == old(s)@ + other@,
{
    s.append(other);
}

/// `char::is_whitespace`.
pub fn is_whitespace(c: char) -> (r: bool)
    ensures
        r == is_ws(c),
{
    ('\u{9}' <= c && c <= '\u{d}') || c == ' ' || c == '\u{85}' || c == '\u{a0}' || c == '\u{1680}'
        || ('\u{2000}' <= c && c <= '\u{200a}') || c == '\u{2028}' || c == '\u{2029}' || c
        == '\u{202f}' || c == '\u{205f}' || c == '\u{3000}'
}

/// The characters from `from` up to, but not including, `to`.
pub fn slice_of(s: &Vec<char>, from: usize, to: usize) -> (r: Vec<char>)
    requires
        from <= to <= s.len(),
    ensures
        r@ == s@.subrange(from as int, to as int),
{
    let mut out: Vec<char> = Vec::new();
    let mut i: usize = from;
    while i < to
        invariant
            from <= i <= to <= s.len(),
            out@ == s@.subrange(from as int, i as int),
        decreases to - i,
    {
        out.push(s[i]);
        assert(s@.subrange(from as int, i as int).push(s@[i as int]) =~= s@.subrange(
            from as int,
            i + 1,
        ));
        i = i + 1;
    }
    out
}

/// Lemma: skipping one more leading whitespace character does not change
/// what trimming the start gives.
proof fn lemma_trim_start_skip(s: Seq<char>, i: int)
    requires
        0 <= i <= s.len(),
        forall|j: int| 0 <= j < i ==> is_ws(s[j]),
    ensures
        trim_start(s) == trim_start(s.skip(i)),
    decreases i,
{
    if i > 0 {
        lemma_trim_start_skip(s.drop_first(), i - 1);
        assert(s.drop_first().skip(i - 1) =~= s.skip(i));
    } else {
        assert(s.skip(0) =~= s);
    }
}

proof fn lemma_trim_end_take(s: Seq<char>, k: int)
    requires
        0 <= k <= s.len(),
        forall|j: int| k <= j < s.len() ==> is_ws(s[j]),
    ensures
        trim_end(s) == trim_end(s.take(k)),
    decreases s.len() - k,
{
    if k < s.len() {
        assert(s.drop_last().take(k) =~= s.take(k));
        lemma_trim_end_take(s.drop_last(), k);
    } else {
        assert(s.take(k) =~= s);
    }
}

/// Where the text starts once leading whitespace is passed.
pub fn trim_start_index(s: &Vec<char>) -> (r: usize)
    ensures
        r <= s.len(),
        trim_start(s@) == s@.skip(r as int),
{
    let mut i: usize = 0;
    while i < s.len() && is_whitespace(s[i])
        invariant
            i <= s.len(),
            forall|j: int| 0 <= j < i ==> is_ws(s@[j]),
        decreases s.len() - i,
    {
        i = i + 1;
    }
    proof {
        lemma_trim_start_skip(s@, i as int);
        if i < s.len() {
            assert(!is_ws(s@.skip(i as int)[0]));
        } else {
            assert(s@.skip(i as int).len() == 0);
        }
    }
    i
}

/// Where the text ends once trailing whitespace, from `from` on, is cut.
pub fn trim_end_index(s: &Vec<char>, from: usize) -> (r: usize)
    requires
        from <= s.len(),
    ensures
        from <= r <= s.len(),
        trim_end(s@.skip(from as int)) == s@.subrange(from as int, r as int),
{
    let mut k: usize = s.len();
    while k > from && is_whitespace(s[k - 1])
        invariant
            from <= k <= s.len(),
            forall|j: int| k <= j < s.len() ==> is_ws(s@[j]),
        decreases k,
    {
        k = k - 1;
    }
    proof {
        let t = s@.skip(from as int);
        lemma_trim_end_take(t, k - from);
        assert(t.take(k - from) =~= s@.subrange(from as int, k as int));
        if k > from {
            assert(!is_ws(t.take(k - from).last()));
        }
    }
    k
}

/// `str::trim`.
pub fn trimmed(s: &Vec<char>) -> (r: Vec<char>)
    ensures
        r@ == trim(s@),
{
    let a: usize = trim_start_index(s);
    let b: usize = trim_end_index(s, a);
    slice_of(s, a, b)
}

/// `str::trim_start`.
pub fn trimmed_start(s: &Vec<char>) -> (r: Vec<char>)
    ensures
        r@ == trim_start(s@),
{
    let a: usize = trim_start_index(s);
    slice_of(s, a, s.len())
}

/// `char::is_alphanumeric`: Unicode's `Alphabetic` or `Numeric`. Its
/// result is named; the fact stated beside the name is what those
/// properties give on ASCII, where the letters and the digits have them and
/// nothing else does.
#[verifier::external_body]
fn is_alphanumeric(c: char) -> (r: bool)
    ensures
        r == unicode_alphanumeric(c),
        (c as u32) < 128 ==> (r <==> is_ascii_alnum(c)),
{
    c.is_alphanumeric()
}

/// `str::to_uppercase`. Its result is named, not computed here; the facts
/// stated beside the name are that every character maps to one or more
/// characters, and that on ASCII the mapping is Unicode's simple one: the
/// letters `a` to `z` become `A` to `Z`, and nothing else changes.
#[verifier::external_body]
pub(crate) fn uppercase(s: &str) -> (r: String)
    ensures
        r@ == unicode_uppercase(s@),
        s@.len() <= r@.len(),
        (forall|i: int| 0 <= i < s@.len() ==> (#[trigger] s@[i] as u32) < 128) ==> r@
            == to_ascii_upper(s@),
{
    s.to_uppercase()
}

/// Is `c` a separator of kind `k`?
pub fn sep_test(k: &Sep, c: char) -> (r: bool)
    ensures
        r == is_sep(*k, c),
{
    match k {
        Sep::Char(x) => c == *x,
        Sep::Space => is_whitespace(c),
        Sep::NonAlnum => !is_alphanumeric(c),
    }
}

/// The pieces between the separators, as `str::split` yields them.
pub fn split_by(s: &Vec<char>, k: Sep) -> (r: Vec<Vec<char>>)
    ensures
        r.deep_view() == pieces_by(s@, k),
{
    let mut done: Vec<Vec<char>> = Vec::new();
    let mut current: Vec<char> = Vec::new();
    let mut i: usize = 0;
    while i < s.len()
        invariant
            i <= s.len(),
            pieces_by(s@.take(i as int), k) == done.deep_view().push(current@),
        decreases s.len() - i,
    {
        proof {
            lemma_pieces_step(s@, i as int, k);
        }
        let c = s[i];
        let ghost dv = done.deep_view();
        if sep_test(&k, c) {
            let finished = current;
            let ghost fv = finished@;
            proof {
                lemma_chars_deep_view(finished);
            }
            done.push(finished);
            current = Vec::new();
            assert(done.deep_view() =~= dv.push(fv));
            assert(current@ =~= Seq::<char>::empty());
        } else {
            current.push(c);
        }
        i = i + 1;
    }
    assert(s@.take(s.len() as int) =~= s@);
    let ghost dv = done.deep_view();
    let ghost cv = current@;
    proof {
        lemma_chars_deep_view(current);
    }
    done.push(current);
    assert(done.deep_view() =~= dv.push(cv));
    done
}

/// The pieces between occurrences of one character.
pub fn split_on(s: &Vec<char>, sep: char) -> (r: Vec<Vec<char>>)
    ensures
        r.deep_view() == pieces(s@, sep),
{
    split_by(s, Sep::Char(sep))
}

/// Only the pieces that are not empty.
pub fn drop_empty(ps: Vec<Vec<char>>) -> (r: Vec<Vec<char>>)
    ensures
        r.deep_view() == nonempty(ps.deep_view()),
{
    let mut out: Vec<Vec<char>> = Vec::new();
    let mut i: usize = 0;
    let ghost all = ps.deep_view();
    while i < ps.len()
        invariant
            i <= ps.len(),
            all == ps.deep_view(),
            out.deep_view() == nonempty(all.take(i as int)),
        decreases ps.len() - i,
    {
        assert(all.take(i + 1).drop_last() =~= all.take(i as int));
        let p = slice_of(&ps[i], 0, ps[i].len());
        proof {
            lemma_chars_deep_view(p);
            lemma_chars_deep_view(ps@[i as int]);
            assert(p@ =~= ps@[i as int]@);
        }
        if p.len() > 0 {
            let ghost ov = out.deep_view();
            out.push(p);
            assert(out.deep_view() =~= ov.push(all[i as int]));
        }
        i = i + 1;
    }
    assert(all.take(ps.len() as int) =~= all);
    out
}

/// `str::split_whitespace`.
pub fn split_words(s: &Vec<char>) -> (r: Vec<Vec<char>>)
    ensures
        r.deep_view() == words(s@),
{
    drop_empty(split_by(s, Sep::Space))
}

/// Are the two texts the same?
pub fn same(a: &Vec<char>, b: &Vec<char>) -> (r: bool)
    ensures
        r == (a@ == b@),
{
    if a.len() != b.len() {
        return false;
    }
    let mut i: usize = 0;
    while i < a.len()
        invariant
            i <= a.len() == b.len(),
            forall|j: int| 0 <= j < i ==> a@[j] == b@[j],
        decreases a.len() - i,
    {
        if a[i] != b[i] {
            return false;
        }
        i = i + 1;
    }
    assert(a@ =~= b@);
    true
}

/// Does `p` occur in `s` starting at `at`?
pub fn occurs_at(s: &Vec<char>, p: &Vec<char>, at: usize) -> (r: bool)
    requires
        at + p.len() <= s.len(),
    ensures
        r == (s@.subrange(at as int, at + p.len()) == p@),
{
    let mut i: usize = 0;
    while i < p.len()
        invariant
            i <= p.len(),
            at + p.len() <= s.len(),
            forall|j: int| 0 <= j < i ==> s@[at + j] == p@[j],
        decreases p.len() - i,
    {
        if s[at + i] != p[i] {
            assert(s@.subrange(at as int, at + p.len())[i as int] != p@[i as int]);
            return false;
        }
        i = i + 1;
    }
    assert(s@.subrange(at as int, at + p.len()) =~= p@);
    true
}

/// Does `s` start with `p`?
pub fn starts(s: &Vec<char>, p: &Vec<char>) -> (r: bool)
    ensures
        r == starts_with(s@, p@),
{
    if p.len() > s.len() {
        return false;
    }
    let r = occurs_at(s, p, 0);
    assert(s@.subrange(0, p.len() as int) =~= s@.take(p.len() as int));
    r
}

/// Lemma: `find` gives the first occurrence.
pub proof fn lemma_find(s: Seq<char>, p: Seq<char>)
    ensures
        match find(s, p) {
            Some(i) => 0 <= i && i + p.len() <= s.len() && s.subrange(i, i + p.len()) == p
                && forall|j: int| 0 <= j < i ==> #[trigger] s.subrange(j, j + p.len()) != p,
            None => forall|j: int| 0 <= j && j + p.len() <= s.len() ==> #[trigger] s.subrange(j, j + p.len()) != p,
        },
    decreases s.len(),
{
    if s.len() < p.len() {
    } else if s.len() == 0 {
        if p.len() == 0 {
            assert(s.subrange(0, 0) =~= p);
        }
    } else {
        lemma_find(s.drop_last(), p);
        assert forall|j: int| 0 <= j && j + p.len() <= s.len() - 1 implies #[trigger] s.subrange(j, j + p.len()) == s.drop_last().subrange(j, j + p.len()) by {
            assert(s.subrange(j, j + p.len()) =~= s.drop_last().subrange(j, j + p.len()));
        }
        assert(s.skip(s.len() - p.len()) =~= s.subrange(s.len() - p.len(), s.len() as int));
    }
}

/// Where `p` first occurs in `s`.
pub fn find_in(s: &Vec<char>, p: &Vec<char>) -> (r: Option<usize>)
    ensures
        match r {
            Some(i) => find(s@, p@) == Some(i as int),
            None => find(s@, p@) is None,
        },
{
    if p.len() > s.len() {
        return None;
    }
    let mut e: usize = p.len();
    // `find` of the prefix that ends just before `e` is known to be None.
    proof {
        if p.len() > 0 {
            assert(s@.take(p.len() - 1).len() < p@.len());
        }
    }
    if p.len() == 0 {
        proof {
            lemma_find_empty(s@, p@);
        }
        return Some(0);
    }
    loop
        invariant
            0 < p.len() <= e <= s.len(),
            find(s@.take(e - 1), p@) is None,
        decreases s.len() - e,
    {
        let hit = occurs_at(s, p, e - p.len());
        proof {
            assert(s@.take(e as int).drop_last() =~= s@.take(e - 1));
            assert(s@.take(e as int).skip(e - p.len()) =~= s@.subrange(e - p.len(), e as int));
        }
        if hit {
            proof {
                lemma_find_prefix(s@, p@, e as int);
            }
            return Some(e - p.len());
        }
        if e == s.len() {
            proof {
                assert(s@.take(e as int) =~= s@);
            }
            return None;
        }
        e = e + 1;
    }
}

/// Lemma: the empty pattern is found at once.
pub proof fn lemma_find_empty(s: Seq<char>, p: Seq<char>)
    requires
        p.len() == 0,
    ensures
        find(s, p) == Some(0int),
    decreases s.len(),
{
    if s.len() > 0 {
        lemma_find_empty(s.drop_last(), p);
    }
}

/// Lemma: the first occurrence in a prefix is the first occurrence overall.
pub proof fn lemma_find_prefix(s: Seq<char>, p: Seq<char>, e: int)
    requires
        0 <= e <= s.len(),
        find(s.take(e), p) is Some,
    ensures
        find(s, p) == find(s.take(e), p),
    decreases s.len() - e,
{
    if e < s.len() {
        assert(s.take(e + 1).take(e) =~= s.take(e));
        assert(s.take(e + 1).drop_last() =~= s.take(e));
        lemma_find_prefix(s, p, e + 1);
    } else {
        assert(s.take(e) =~= s);
    }
}

/// Does `p` occur anywhere in `s`?
pub fn occurs(s: &Vec<char>, p: &Vec<char>) -> (r: bool)
    ensures
        r == contains(s@, p@),
{
    let r = find_in(s, p);
    proof {
        lemma_find(s@, p@);
    }
    r.is_some()
}

/// The decimal digit for `d`.
pub fn digit_char(d: u64) -> (r: char)
    requires
        d < 10,
    ensures
        r == digit(d as nat),
{
    let b: u8 = 48u8 + d as u8;
    b as char
}

/// Appends the decimal writing of `n`.
pub fn push_decimal(s: &mut String, n: u64)
    ensures
        final(s)@ == old(s)@ + dec(n as nat),
    decreases n,
{
    if n >= 10 {
        push_decimal(s, n / 10);
    }
    push_char(s, digit_char(n % 10));
    proof {
        if n >= 10 {
            assert(old(s)@ + dec(n as nat) =~= old(s)@ + dec((n / 10) as nat) + seq![digit((n % 10) as nat)]);
        } else {
            assert(old(s)@ + dec(n as nat) =~= old(s)@.push(digit(n as nat)));
        }
    }
}

/// Appends the decimal writing of a signed `n`.
pub fn push_signed_decimal(s: &mut String, n: i32)
    ensures
        final(s)@ == old(s)@ + signed_dec(n as int),
{
    if n < 0 {
        push_char(s, '-');
        let magnitude: i64 = -(n as i64);
        push_decimal(s, magnitude as u64);
        assert(final(s)@ =~= old(s)@ + signed_dec(n as int));
    } else {
        push_decimal(s, n as u64);
    }
}

/// `str::to_ascii_lowercase`.
pub fn ascii_lowercase(s: &Vec<char>) -> (r: Vec<char>)
    ensures
        r@ == to_ascii_lower(s@),
{
    let mut out: Vec<char> = Vec::new();
    let mut i: usize = 0;
    while i < s.len()
        invariant
            i <= s.len(),
            out@ == to_ascii_lower(s@.take(i as int)),
        decreases s.len() - i,
    {
        let c = s[i];
        let l = if 'A' <= c && c <= 'Z' {
            let v: u32 = c as u32 + 32;
            char_of(v)
        } else {
            c
        };
        out.push(l);
        assert(to_ascii_lower(s@.take(i + 1)) =~= to_ascii_lower(s@.take(i as int)).push(ascii_lower(c)));
        i = i + 1;
    }
    assert(s@.take(s.len() as int) =~= s@);
    out
}

/// The character of an ASCII code point.
fn char_of(v: u32) -> (r: char)
    requires
        v < 128,
    ensures
        r == v as char,
{
    let b: u8 = v as u8;
    b as char
}

} // verus!
