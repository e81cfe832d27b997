//! Visual layer: the banner, dividers and section headers.
use vstd::prelude::*;
use colored::Colorize;
use crate::text::{
    chars_of, contains, push_str, string_from_chars,
};

verus! {

/// The kryx version, shown in `--version`, in the banner and in the help
/// sections.
pub const VERSION: &'static str = "0.1.0";

/// ASCII banner for the kryx CLI, shown at the top of major commands.
pub const BANNER: &'static str = r"
   _  _______   ______  _   _ ___ __  __   ___  ____
  | |/ /  __ \ / __  \| \ | |_ _|\ \/ /  / _ \/ ___|
  | ' /| |__) | |  | ||  \| || |  \  /  | | | \___ \
  | . \|  _  /| |  | || . ` || |  /  \  | |_| |___) |
  |_|\_\_| \_\\____/ |_|\_|___|/_/\_\\___\___/____/
              Unified CLI · KryonixOS
";

/// Indent prefix used for all visual blocks.
pub const INDENT: &'static str = "  ";

/// The ANSI reset sequence.
pub open spec fn ansi_reset() -> Seq<char> {
    seq!['\u{1b}', '[', '0', 'm']
}

/// `s` wrapped in the ANSI select-graphic-rendition sequence `code`.
pub open spec fn styled(s: Seq<char>, code: Seq<char>) -> Seq<char> {
    seq!['\u{1b}', '['] + code + seq!['m'] + s + ansi_reset()
}

/// What a styled string of `colored` prints as: the text unchanged when
/// colouring is off, or wrapped in the style's escape sequence when it is on.
/// A text that itself holds a reset sequence is rewritten by the crate, and
/// nothing more is said of it.
pub open spec fn style_outcome(s: Seq<char>, code: Seq<char>, r: Seq<char>) -> bool {
    r == s || r == styled(s, code) || contains(s, ansi_reset())
}

/// `colored`: `s.bold().underline()`, printed. Whether colours are on depends
/// on the environment (`CLICOLOR`, `NO_COLOR`, `CLICOLOR_FORCE`, whether
/// stdout is a terminal); the contract states what holds either way.
#[verifier::external_body]
fn paint_bold_underline(s: &str) -> (r: String)
    ensures
        style_outcome(s@, "1;4"@, r@),
{
    s.bold().underline().to_string()
}

/// `colored`: `s.dimmed()`, printed (either way, as above).
#[verifier::external_body]
fn paint_dimmed(s: &str) -> (r: String)
    ensures
        style_outcome(s@, "2"@, r@),
{
    s.dimmed().to_string()
}

/// `colored`: `s.cyan().bold()`, printed (either way, as above).
#[verifier::external_body]
fn paint_cyan_bold(s: &str) -> (r: String)
    ensures
        style_outcome(s@, "1;36"@, r@),
{
    s.cyan().bold().to_string()
}

/// `colored`: `s.red()`, printed (either way, as above).
#[verifier::external_body]
pub(crate) fn paint_red(s: &str) -> (r: String)
    ensures
        style_outcome(s@, "31"@, r@),
{
    s.red().to_string()
}

/// `colored`: `s.green()`, printed (either way, as above).
#[verifier::external_body]
pub(crate) fn paint_green(s: &str) -> (r: String)
    ensures
        style_outcome(s@, "32"@, r@),
{
    s.green().to_string()
}

/// The banner with the given rendering of the version number.
pub open spec fn banner_with(version: Seq<char>) -> Seq<char> {
    BANNER@ + INDENT@ + "v"@ + version + " · KryonixOS Unified CLI"@ + "\n"@
}

proof fn lemma_version_has_no_escape()
    ensures
        !contains(VERSION@, ansi_reset()),
{
    reveal_strlit("0.1.0");
    if contains(VERSION@, ansi_reset()) {
        let i = choose|i: int| crate::text::occurs_at(VERSION@, ansi_reset(), i);
        assert(VERSION@.subrange(i, i + 4)[0] == '\u{1b}');
    }
}

/// Render the full banner with the current version (in bold cyan when
/// colours are on).
pub fn render_banner() -> (s: String)
    ensures
        s@ == banner_with(VERSION@) || s@ == banner_with(styled(VERSION@, "1;36"@)),
{
    proof {
        lemma_version_has_no_escape();
    }
    let v = paint_cyan_bold(VERSION);
    let mut out = chars_of(BANNER);
    push_str(&mut out, INDENT);
    push_str(&mut out, "v");
    push_str(&mut out, v.as_str());
    push_str(&mut out, " · KryonixOS Unified CLI");
    push_str(&mut out, "\n");
    assert(out@ =~= banner_with(v@));
    string_from_chars(out.as_slice())
}

/// The divider: 72 box-drawing horizontal lines.
pub open spec fn divider_spec() -> Seq<char> {
    Seq::new(72, |i: int| '─')
}

/// Render a horizontal divider for visual section breaks.
pub fn divider() -> (s: String)
    ensures
        s@ == divider_spec(),
{
    let mut out: Vec<char> = Vec::new();
    for i in 0..72usize
        invariant
            out@ == Seq::new(i as nat, |j: int| '─'),
    {
        out.push('─');
        assert(out@ =~= Seq::new((i + 1) as nat, |j: int| '─'));
    }
    assert(out@ =~= divider_spec());
    string_from_chars(out.as_slice())
}

proof fn lemma_divider_has_no_escape()
    ensures
        !contains(divider_spec(), ansi_reset()),
{
    if contains(divider_spec(), ansi_reset()) {
        let i = choose|i: int| crate::text::occurs_at(divider_spec(), ansi_reset(), i);
        assert(divider_spec().subrange(i, i + 4)[0] == '\u{1b}');
    }
}

/// Render a section header: the title (bold, underlined) over a dimmed
/// divider.
pub fn section_header(title: &str) -> (s: String)
    ensures
        exists|t: Seq<char>, d: Seq<char>|
            style_outcome(title@, "1;4"@, t) && (d == divider_spec() || d == styled(
                divider_spec(),
                "2"@,
            )) && s@ == t + "\n"@ + d,
{
    proof {
        lemma_divider_has_no_escape();
    }
    let t = paint_bold_underline(title);
    let dv = divider();
    let d = paint_dimmed(dv.as_str());
    let mut out = chars_of(t.as_str());
    push_str(&mut out, "\n");
    push_str(&mut out, d.as_str());
    assert(out@ =~= t@ + "\n"@ + d@);
    string_from_chars(out.as_slice())
}

} // verus!
