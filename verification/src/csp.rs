//! What the served Content-Security-Policy says, read from the window and
//! not from the configuration.
//!
//! Between the configured policy and the one the window receives, the
//! framework rewrites: it adds digests of its own scripts to `script-src`,
//! and would set a nonce on `style-src` if the page carried a `<style>` tag.
//! A nonce cancels `'unsafe-inline'` (CSP level 3), and every component
//! style would then drop without a word, in a packaged build only. Judging
//! the served header is what catches that.

use vstd::prelude::*;
use crate::text::{
    chars_of, contains, lemma_chars_deep_view, occurs, pieces, slice_of, split_on, starts,
    starts_with, trim, trim_start, trimmed, trimmed_start,
};

verus! {

/// What reading the header lets us conclude.
#[derive(Debug, Clone, Copy, PartialEq, Eq, Structural)]
pub struct Verdict {
    /// Do component styles pass: does `style-src` admit inline, with nothing
    /// canceling it?
    pub component_styles_pass: bool,
    /// Was a nonce set on `style-src`, which neutralizes `'unsafe-inline'`?
    pub nonce_on_style: bool,
    /// `script-src` admits neither `eval` nor inline uncovered by a nonce.
    pub strict_scripts: bool,
}

/// What one `;`-separated piece of the header says about the directive
/// `name`: its content if it is that directive, nothing otherwise.
///
/// The whole name must match, followed by a space or by nothing:
/// `script-src` is a prefix of `script-src-elem`, which is another
/// directive.
pub open spec fn piece_directive(raw: Seq<char>, name: Seq<char>) -> Option<Seq<char>> {
    let piece = trim(raw);
    if starts_with(piece, name) {
        let rest = piece.skip(name.len() as int);
        if rest.len() == 0 {
            Some(Seq::<char>::empty())
        } else if rest[0] == ' ' {
            Some(trim_start(rest))
        } else {
            None
        }
    } else {
        None
    }
}

/// The first piece that is the directive `name`.
pub open spec fn first_directive(ps: Seq<Seq<char>>, name: Seq<char>) -> Option<Seq<char>>
    decreases ps.len(),
{
    if ps.len() == 0 {
        None
    } else {
        match piece_directive(ps[0], name) {
            Some(d) => Some(d),
            None => first_directive(ps.drop_first(), name),
        }
    }
}

/// The content of the directive `name` in the header, or nothing.
pub open spec fn directive_of(header: Seq<char>, name: Seq<char>) -> Option<Seq<char>> {
    first_directive(pieces(header, ';'), name)
}

/// The verdict a header gives, if it has a `style-src` directive.
pub open spec fn judgement(header: Seq<char>) -> Option<Verdict> {
    match directive_of(header, "style-src"@) {
        None => None,
        Some(style) => {
            let script = match directive_of(header, "script-src"@) {
                Some(d) => d,
                None => Seq::<char>::empty(),
            };
            let nonce_on_style = contains(style, "'nonce-"@);
            let nonce_on_script = contains(script, "'nonce-"@);
            Some(
                Verdict {
                    component_styles_pass: contains(style, "'unsafe-inline'"@) && !nonce_on_style,
                    nonce_on_style,
                    strict_scripts: !contains(script, "'unsafe-eval'"@) && (!contains(
                        script,
                        "'unsafe-inline'"@,
                    ) || nonce_on_script),
                },
            )
        },
    }
}

/// Judges a `Content-Security-Policy` header.
///
/// Returns `None` if the `style-src` directive is absent: that is not a
/// default verdict but an unanswered question.
pub fn judge(header: &str) -> (r: Option<Verdict>)
    ensures
        r == judgement(header@),
{
    let h = chars_of(header);
    let style = match directive(&h, &chars_of("style-src")) {
        Some(d) => d,
        None => return None,
    };
    let script = match directive(&h, &chars_of("script-src")) {
        Some(d) => d,
        None => Vec::new(),
    };
    assert(script@ == match directive_of(header@, "script-src"@) {
        Some(d) => d,
        None => Seq::<char>::empty(),
    });
    let nonce = chars_of("'nonce-");
    let nonce_on_style = occurs(&style, &nonce);
    let nonce_on_script = occurs(&script, &nonce);
    Some(
        Verdict {
            component_styles_pass: occurs(&style, &chars_of("'unsafe-inline'")) && !nonce_on_style,
            nonce_on_style,
            strict_scripts: !occurs(&script, &chars_of("'unsafe-eval'")) && (!occurs(
                &script,
                &chars_of("'unsafe-inline'"),
            ) || nonce_on_script),
        },
    )
}

/// What one piece says about the directive `name`.
fn piece_as(raw: &Vec<char>, name: &Vec<char>) -> (r: Option<Vec<char>>)
    ensures
        match r {
            Some(d) => piece_directive(raw@, name@) == Some(d@),
            None => piece_directive(raw@, name@) is None,
        },
{
    let piece = trimmed(raw);
    if !starts(&piece, name) {
        return None;
    }
    let rest = slice_of(&piece, name.len(), piece.len());
    assert(rest@ == piece@.skip(name@.len() as int));
    if rest.len() == 0 {
        Some(Vec::new())
    } else if rest[0] == ' ' {
        Some(trimmed_start(&rest))
    } else {
        None
    }
}

/// The content of a directive, or nothing.
fn directive(header: &Vec<char>, name: &Vec<char>) -> (r: Option<Vec<char>>)
    ensures
        match r {
            Some(d) => directive_of(header@, name@) == Some(d@),
            None => directive_of(header@, name@) is None,
        },
{
    let ps = split_on(header, ';');
    let ghost all = ps.deep_view();
    let mut i: usize = 0;
    assert(all.skip(0) =~= all);
    while i < ps.len()
        invariant
            i <= ps.len(),
            all == ps.deep_view(),
            all == pieces(header@, ';'),
            first_directive(all, name@) == first_directive(all.skip(i as int), name@),
        decreases ps.len() - i,
    {
        proof {
            lemma_chars_deep_view(ps@[i as int]);
            assert(all.skip(i as int)[0] == all[i as int]);
            assert(all.skip(i as int).drop_first() =~= all.skip(i + 1));
        }
        match piece_as(&ps[i], name) {
            Some(d) => return Some(d),
            None => {},
        }
        i = i + 1;
    }
    assert(all.skip(ps.len() as int).len() == 0);
    None
}

/// A nonce on `style-src` cancels `'unsafe-inline'`: whenever one is found,
/// component styles do not pass, whatever else the header says.
pub proof fn law_a_style_nonce_cancels_inline(header: Seq<char>)
    ensures
        match judgement(header) {
            Some(v) => v.nonce_on_style ==> !v.component_styles_pass,
            None => directive_of(header, "style-src"@) is None,
        },
{
}

/// What `serde_json::from_str::<String>` reads of a payload: the string a
/// JSON string literal holds, or nothing when the payload is not one.
pub uninterp spec fn json_string_of(payload: Seq<char>) -> Option<Seq<char>>;

/// `serde_json::from_str::<String>`. Its result is named by
/// `json_string_of`, not computed here; nothing more is stated of it.
#[verifier::external_body]
fn decode_json_string(payload: &str) -> (r: Option<String>)
    ensures
        match r {
            Some(h) => json_string_of(payload@) == Some(h@),
            None => json_string_of(payload@) is None,
        },
{
    serde_json::from_str::<String>(payload).ok()
}

/// Judges the header the window sent, as a JSON string; a payload that does
/// not decode is judged as an empty header, which gives no verdict.
pub fn judge_payload(payload: &str) -> (r: Option<Verdict>)
    ensures
        r == judgement(
            match json_string_of(payload@) {
                Some(h) => h,
                None => Seq::<char>::empty(),
            },
        ),
{
    let header = match decode_json_string(payload) {
        Some(h) => h,
        None => String::new(),
    };
    judge(header.as_str())
}

} // verus!
