//! Under what name the launcher presents itself.
//!
//! "Helm" is the name of the launcher, not of a network: the launcher is
//! server-agnostic, and a server's name shows next to the wordmark, not in
//! its place. The name can be set when the binary is built; the build hands
//! it in as `configured`, and an absent or empty one falls back to "Helm".

use vstd::prelude::*;
use crate::text::{
    chars_of, is_sep, lemma_pieces_len, nonempty, owned, pieces_by, to_ascii_upper, split_by, drop_empty, string_of, unicode_uppercase,
    uppercase, Sep,
};

verus! {

/// What the launcher displays about itself.
#[derive(Debug, Clone, PartialEq, Eq)]
pub struct Brand {
    /// The full name, in the window title and in the header.
    pub name: String,
    /// Two letters for the round seal.
    pub seal: String,
}

/// The name the launcher falls back to.
pub const DEFAULT_NAME: &'static str = "Helm";

/// The name retained: the configured one unless it is absent or empty.
pub open spec fn chosen_name(configured: Option<&'static str>, default: Seq<char>) -> Seq<char> {
    match configured {
        Some(n) => if n@.len() > 0 {
            n@
        } else {
            default
        },
        None => default,
    }
}

/// The words of a name: the non-empty runs of letters and digits.
pub open spec fn name_words(name: Seq<char>) -> Seq<Seq<char>> {
    nonempty(pieces_by(name, Sep::NonAlnum))
}

/// The letters the seal is made of, before uppercasing: the first two
/// letters of a single word, the initials of the first two words of
/// several, nothing for a name without a word.
pub open spec fn seal_letters(name: Seq<char>) -> Seq<char> {
    let ws = name_words(name);
    if ws.len() == 0 {
        Seq::empty()
    } else if ws.len() == 1 {
        if ws[0].len() >= 2 {
            ws[0].take(2)
        } else {
            ws[0]
        }
    } else {
        seq![ws[0][0], ws[1][0]]
    }
}

/// The seal of a name: its letters, uppercased, or `??` when it has none.
pub open spec fn seal_of(name: Seq<char>) -> Seq<char> {
    let letters = seal_letters(name);
    if letters.len() == 0 {
        "??"@
    } else {
        unicode_uppercase(letters)
    }
}

/// A text made of ASCII characters only.
pub open spec fn is_ascii_text(s: Seq<char>) -> bool {
    forall|i: int| 0 <= i < s.len() ==> (#[trigger] s[i] as u32) < 128
}

/// The seal of an ASCII name, with the uppercasing spelled out.
pub open spec fn ascii_seal_of(name: Seq<char>) -> Seq<char> {
    let letters = seal_letters(name);
    if letters.len() == 0 {
        "??"@
    } else {
        to_ascii_upper(letters)
    }
}

/// The pieces of an ASCII text are ASCII.
proof fn lemma_pieces_ascii(s: Seq<char>, k: Sep)
    requires
        is_ascii_text(s),
    ensures
        forall|j: int| 0 <= j < pieces_by(s, k).len() ==> is_ascii_text(#[trigger] pieces_by(s, k)[j]),
    decreases s.len(),
{
    if s.len() > 0 {
        let d = s.drop_last();
        assert(is_ascii_text(d)) by {
            assert forall|i: int| 0 <= i < d.len() implies (#[trigger] d[i] as u32) < 128 by {
                assert(d[i] == s[i]);
            }
        }
        lemma_pieces_ascii(d, k);
        lemma_pieces_len(d, k);
        let before = pieces_by(d, k);
        assert((s.last() as u32) < 128) by {
            assert(s.last() == s[s.len() - 1]);
        }
        if !is_sep(k, s.last()) {
            let grown = before.last().push(s.last());
            assert(is_ascii_text(before[before.len() - 1]));
            assert(is_ascii_text(grown)) by {
                assert forall|i: int| 0 <= i < grown.len() implies (#[trigger] grown[i] as u32) < 128 by {
                    if i < grown.len() - 1 {
                        assert(grown[i] == before[before.len() - 1][i]);
                    }
                }
            }
            assert forall|j: int| 0 <= j < pieces_by(s, k).len() implies is_ascii_text(
                #[trigger] pieces_by(s, k)[j],
            ) by {
                if j < before.len() - 1 {
                    assert(pieces_by(s, k)[j] == before[j]);
                }
            }
        } else {
            assert forall|j: int| 0 <= j < pieces_by(s, k).len() implies is_ascii_text(
                #[trigger] pieces_by(s, k)[j],
            ) by {
                if j < before.len() {
                    assert(pieces_by(s, k)[j] == before[j]);
                } else {
                    assert(pieces_by(s, k)[j] =~= Seq::<char>::empty());
                }
            }
        }
    }
}

/// What `nonempty` keeps of ASCII pieces is ASCII.
proof fn lemma_nonempty_ascii(ps: Seq<Seq<char>>)
    requires
        forall|j: int| 0 <= j < ps.len() ==> is_ascii_text(#[trigger] ps[j]),
    ensures
        forall|j: int| 0 <= j < nonempty(ps).len() ==> is_ascii_text(#[trigger] nonempty(ps)[j]),
    decreases ps.len(),
{
    if ps.len() > 0 {
        let d = ps.drop_last();
        assert forall|j: int| 0 <= j < d.len() implies is_ascii_text(#[trigger] d[j]) by {
            assert(d[j] == ps[j]);
        }
        lemma_nonempty_ascii(d);
        let before = nonempty(d);
        assert(is_ascii_text(ps[ps.len() - 1]));
        assert forall|j: int| 0 <= j < nonempty(ps).len() implies is_ascii_text(
            #[trigger] nonempty(ps)[j],
        ) by {
            if j < before.len() {
                assert(nonempty(ps)[j] == before[j]);
            } else {
                assert(nonempty(ps)[j] == ps.last());
            }
        }
    }
}

/// The letters of an ASCII name are ASCII.
proof fn lemma_seal_letters_ascii(name: Seq<char>)
    requires
        is_ascii_text(name),
    ensures
        is_ascii_text(seal_letters(name)),
{
    lemma_pieces_ascii(name, Sep::NonAlnum);
    lemma_nonempty_ascii(pieces_by(name, Sep::NonAlnum));
    lemma_nonempty_pieces(pieces_by(name, Sep::NonAlnum));
    let ws = name_words(name);
    if ws.len() == 1 {
        assert(is_ascii_text(ws[0]));
        if ws[0].len() >= 2 {
            let t = ws[0].take(2);
            assert forall|i: int| 0 <= i < t.len() implies (#[trigger] t[i] as u32) < 128 by {
                assert(t[i] == ws[0][i]);
            }
        }
    } else if ws.len() >= 2 {
        assert(is_ascii_text(ws[0]) && is_ascii_text(ws[1]));
        assert(ws[0].len() > 0 && ws[1].len() > 0);
        let t = seq![ws[0][0], ws[1][0]];
        assert forall|i: int| 0 <= i < t.len() implies (#[trigger] t[i] as u32) < 128 by {
            if i == 0 {
                assert(t[i] == ws[0][0]);
            } else {
                assert(t[i] == ws[1][0]);
            }
        }
    }
}

/// A non-empty piece is what `nonempty` keeps.
proof fn lemma_nonempty_pieces(ps: Seq<Seq<char>>)
    ensures
        forall|i: int| 0 <= i < nonempty(ps).len() ==> #[trigger] nonempty(ps)[i].len() > 0,
    decreases ps.len(),
{
    if ps.len() > 0 {
        lemma_nonempty_pieces(ps.drop_last());
        let before = nonempty(ps.drop_last());
        assert forall|i: int| 0 <= i < nonempty(ps).len() implies #[trigger] nonempty(ps)[i].len()
            > 0 by {
            if i < before.len() {
                assert(nonempty(ps)[i] == before[i]);
            }
        }
    }
}

/// The chosen name, `configured` unless it is absent or empty.
pub fn name(configured: Option<&'static str>) -> (r: &'static str)
    ensures
        r@ == chosen_name(configured, DEFAULT_NAME@),
{
    match configured {
        Some(n) => if n.is_empty() {
            DEFAULT_NAME
        } else {
            n
        },
        None => DEFAULT_NAME,
    }
}

/// The two letters of the seal, derived from the name so that a changed
/// name cannot keep a seal that contradicts it.
pub fn seal(name: &str) -> (r: String)
    ensures
        r@ == seal_of(name@),
        r@.len() > 0,
        is_ascii_text(name@) ==> r@ == ascii_seal_of(name@),
{
    let ws = drop_empty(split_by(&chars_of(name), Sep::NonAlnum));
    proof {
        lemma_nonempty_pieces(pieces_by(name@, Sep::NonAlnum));
    }
    let ghost wv = ws.deep_view();
    assert(wv == name_words(name@));
    let mut letters: Vec<char> = Vec::new();
    if ws.len() == 1 {
        assert(ws@[0]@ == wv[0]);
        letters.push(ws[0][0]);
        if ws[0].len() >= 2 {
            letters.push(ws[0][1]);
            assert(letters@ =~= wv[0].take(2));
        } else {
            assert(letters@ =~= wv[0]);
        }
    } else if ws.len() >= 2 {
        assert(ws@[0]@ == wv[0] && ws@[1]@ == wv[1]);
        letters.push(ws[0][0]);
        letters.push(ws[1][0]);
        assert(letters@ =~= seq![wv[0][0], wv[1][0]]);
    }
    assert(letters@ == seal_letters(name@));
    if letters.len() == 0 {
        proof {
            reveal_strlit("??");
        }
        return owned("??");
    }
    let text = string_of(&letters);
    proof {
        if is_ascii_text(name@) {
            lemma_seal_letters_ascii(name@);
        }
    }
    uppercase(text.as_str())
}

impl Brand {
    /// The brand of this build, from the name it was configured with.
    pub fn current(configured: Option<&'static str>) -> (r: Brand)
        ensures
            r.name@ == chosen_name(configured, DEFAULT_NAME@),
            r.seal@ == seal_of(r.name@),
    {
        let name = name(configured);
        Brand { name: owned(name), seal: seal(name) }
    }
}

} // verus!
