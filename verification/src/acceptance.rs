//! The packaged build's acceptance test, as the window reports it.
//!
//! Seven points decide whether a packaged build renders what the
//! development server shows, and none of them shows up in development.
//! The window observes itself and reports; this module names what is
//! missing, and stays quiet about what is fine.

use vstd::prelude::*;
use crate::text::{append, owned, starts, chars_of, starts_with};

verus! {

/// What the window observed about itself.
#[derive(Debug, Default, Clone)]
pub struct Report {
    /// The value of `--gold` on `:root`, or empty.
    pub theme: String,
    /// The computed value of a glass surface's `backdrop-filter`.
    pub glass: String,
    /// A property that exists only in a component's style sheet.
    pub component_style: String,
    /// A color passed through `color-mix()`, as the engine renders it.
    pub color_mix: String,
    /// Is a route component mounted?
    pub route_mounted: bool,
    /// How many stylesheets the document carries.
    pub sheets: usize,
    /// The CSP violations recorded since the very first script.
    pub violations: Vec<String>,
}

/// The design system's tokens are not there.
pub const THEME_GAP: &'static str = "--gold isn't set on :root: the design system's tokens aren't being served";

/// The component style marker did not arrive.
pub const COMPONENT_STYLE_GAP: &'static str = "app.css's marker property doesn't arrive: a component style is being rejected, so `style-src` doesn't carry 'unsafe-inline'";

/// The glass renders flat.
pub const GLASS_GAP: &'static str = "a glass surface's backdrop-filter renders nothing: the -webkit- prefix is missing, and all the frosted glass renders flat";

/// What precedes the unresolved `color-mix()` value, itself between quotes.
pub const COLOR_MIX_GAP: &'static str = "color-mix() isn't resolved by the engine: \"";

/// No style sheet at all.
pub const SHEETS_GAP: &'static str = "no stylesheet: the CSS isn't served through <link>";

/// No route component mounted.
pub const ROUTE_GAP: &'static str = "no route component mounted: the lazy fragment didn't arrive, which `script-src` can break without a word";

/// What precedes a CSP violation, reported as it came.
pub const VIOLATION_GAP: &'static str = "CSP violation: ";

/// The computed value of an unrecognized property is the empty string or
/// `none`: both say that the glass is flat.
pub open spec fn glass_is_flat(glass: Seq<char>) -> bool {
    glass.len() == 0 || glass == "none"@
}

/// An engine resolves `color-mix()` to `rgb(..)` or to `oklab(..)`.
pub open spec fn color_is_resolved(color: Seq<char>) -> bool {
    starts_with(color, "rgb"@) || starts_with(color, "oklab"@)
}

/// `message` alone if `missing`, nothing otherwise.
pub open spec fn gap_if(missing: bool, message: Seq<char>) -> Seq<Seq<char>> {
    if missing {
        seq![message]
    } else {
        Seq::empty()
    }
}

/// Each violation, prefixed, in the order it was recorded.
pub open spec fn violation_gaps(violations: Seq<String>) -> Seq<Seq<char>> {
    violations.map_values(|v: String| VIOLATION_GAP@ + v@)
}

/// What is missing from a report, in the order the points are checked:
/// tokens, component style, glass, `color-mix()`, style sheets, route,
/// then every violation.
pub open spec fn gaps_of(r: Report) -> Seq<Seq<char>> {
    gap_if(r.theme@.len() == 0, THEME_GAP@)
        + gap_if(r.component_style@.len() == 0, COMPONENT_STYLE_GAP@)
        + gap_if(glass_is_flat(r.glass@), GLASS_GAP@)
        + gap_if(!color_is_resolved(r.color_mix@), COLOR_MIX_GAP@ + r.color_mix@ + "\""@)
        + gap_if(r.sheets == 0, SHEETS_GAP@)
        + gap_if(!r.route_mounted, ROUTE_GAP@)
        + violation_gaps(r.violations@)
}

/// Pushes `message` if `missing`.
fn note_gap(gaps: &mut Vec<String>, missing: bool, message: String)
    ensures
        final(gaps).deep_view() == old(gaps).deep_view() + gap_if(missing, message@),
{
    if missing {
        gaps.push(message);
    }
    assert(final(gaps).deep_view() =~= old(gaps).deep_view() + gap_if(missing, message@));
}

/// What's missing, named; an empty list when everything is fine.
pub fn gaps(report: &Report) -> (r: Vec<String>)
    ensures
        r.deep_view() == gaps_of(*report),
{
    let mut gaps: Vec<String> = Vec::new();
    note_gap(&mut gaps, report.theme.as_str().is_empty(), owned(THEME_GAP));
    note_gap(&mut gaps, report.component_style.as_str().is_empty(), owned(COMPONENT_STYLE_GAP));
    let glass_flat = report.glass.as_str().is_empty() || report.glass == owned("none");
    note_gap(&mut gaps, glass_flat, owned(GLASS_GAP));
    let color = chars_of(report.color_mix.as_str());
    let resolved = starts(&color, &chars_of("rgb")) || starts(&color, &chars_of("oklab"));
    let mut unresolved = owned(COLOR_MIX_GAP);
    append(&mut unresolved, report.color_mix.as_str());
    append(&mut unresolved, "\"");
    note_gap(&mut gaps, !resolved, unresolved);
    note_gap(&mut gaps, report.sheets == 0, owned(SHEETS_GAP));
    note_gap(&mut gaps, !report.route_mounted, owned(ROUTE_GAP));
    let ghost before = gaps.deep_view();
    let mut i: usize = 0;
    while i < report.violations.len()
        invariant
            i <= report.violations.len(),
            gaps.deep_view() == before + violation_gaps(report.violations@.take(i as int)),
        decreases report.violations.len() - i,
    {
        let mut line = owned(VIOLATION_GAP);
        append(&mut line, report.violations[i].as_str());
        let ghost previous = gaps.deep_view();
        gaps.push(line);
        assert(gaps.deep_view() =~= previous.push(VIOLATION_GAP@ + report.violations@[i as int]@));
        assert(violation_gaps(report.violations@.take(i + 1)) =~= violation_gaps(
            report.violations@.take(i as int),
        ).push(VIOLATION_GAP@ + report.violations@[i as int]@));
        i = i + 1;
    }
    assert(report.violations@.take(report.violations.len() as int) =~= report.violations@);
    gaps
}

/// An empty report, what an unreadable payload gives, does not pass for a
/// success: every one of the six points is reported missing.
pub proof fn law_an_empty_report_names_every_point(r: Report)
    requires
        r.theme@.len() == 0,
        r.glass@.len() == 0,
        r.component_style@.len() == 0,
        r.color_mix@.len() == 0,
        r.sheets == 0,
        !r.route_mounted,
    ensures
        gaps_of(r).len() == 6 + r.violations@.len(),
{
    reveal_strlit("rgb");
    reveal_strlit("oklab");
    assert(!color_is_resolved(r.color_mix@));
}

/// A report where every point holds and no violation was recorded names
/// nothing.
pub proof fn law_a_conformant_report_names_nothing(r: Report)
    requires
        r.theme@.len() > 0,
        r.component_style@.len() > 0,
        !glass_is_flat(r.glass@),
        color_is_resolved(r.color_mix@),
        r.sheets > 0,
        r.route_mounted,
        r.violations@.len() == 0,
    ensures
        gaps_of(r).len() == 0,
{
}

} // verus!
