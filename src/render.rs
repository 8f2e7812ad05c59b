//! Rendering of the summary flags into an ordered sequence of styled tokens.

use vstd::prelude::*;
use vstd::string::StringExecFns;
use crate::status::Flags;

verus! {

/// The terminal colours that the prompt uses.
#[derive(Clone, Copy, Debug, PartialEq, Eq, Structural)]
pub enum Colour {
    Blue,
    Cyan,
    Green,
    Red,
    Yellow,
}

/// A colour, optionally in bold.
#[derive(Clone, Copy, Debug, PartialEq, Eq, Structural)]
pub struct Style {
    pub colour: Colour,
    pub bold: bool,
}

/// A piece of text with the style it is printed in.
#[derive(Debug)]
pub struct Token {
    pub style: Style,
    pub text: String,
}

impl View for Token {
    type V = (Style, Seq<char>);

    open spec fn view(&self) -> (Style, Seq<char>) {
        (self.style, self.text@)
    }
}

pub open spec fn tokens_view(v: Seq<Token>) -> Seq<(Style, Seq<char>)> {
    v.map_values(|t: Token| t@)
}

pub open spec fn plain(colour: Colour) -> Style {
    Style { colour, bold: false }
}

pub open spec fn bold(colour: Colour) -> Style {
    Style { colour, bold: true }
}

/// A single token when `shown` holds, none otherwise.
pub open spec fn shown_if(shown: bool, style: Style, text: Seq<char>) -> Seq<(Style, Seq<char>)> {
    if shown {
        seq![(style, text)]
    } else {
        seq![]
    }
}

/// The "ahead" arrow is set off by a space after the clean, deleted and
/// moved glyphs.
pub open spec fn ahead_spaced(f: Flags) -> bool {
    f.spec_is_clean() || f.deleted || f.moved
}

/// The "behind" arrow is set off by a space only when it directly follows
/// the clean or the moved glyph.
pub open spec fn behind_spaced(f: Flags, ahead: bool) -> bool {
    !ahead && (f.spec_is_clean() || f.moved)
}

pub open spec fn ahead_text(f: Flags) -> Seq<char> {
    if ahead_spaced(f) { " ↑"@ } else { "↑"@ }
}

pub open spec fn behind_text(f: Flags, ahead: bool) -> Seq<char> {
    if behind_spaced(f, ahead) { " ↓"@ } else { "↓"@ }
}

/// The whole summary: the branch name in green, then the glyphs in their
/// fixed order: dirty, new, untracked, deleted, moved, clean, ahead, behind.
/// Deleted files show as a bold "Ｘ" with no leading space.
pub open spec fn summary_spec(branch: Seq<char>, f: Flags, ahead: bool, behind: bool) -> Seq<
    (Style, Seq<char>),
> {
    seq![(plain(Colour::Green), branch)]
        + shown_if(f.dirty, plain(Colour::Blue), "＊"@)
        + shown_if(f.new_files, bold(Colour::Green), "＋"@)
        + shown_if(f.untracked, bold(Colour::Yellow), "？"@)
        + shown_if(f.deleted, bold(Colour::Red), "Ｘ"@)
        + shown_if(f.moved, bold(Colour::Yellow), "➜"@)
        + shown_if(f.spec_is_clean(), bold(Colour::Green), " ✔"@)
        + shown_if(ahead, plain(Colour::Cyan), ahead_text(f))
        + shown_if(behind, plain(Colour::Cyan), behind_text(f, ahead))
}

/// Appends a token when `shown` holds.
fn push_if(out: &mut Vec<Token>, shown: bool, style: Style, text: &str)
    ensures
        tokens_view(final(out)@) == tokens_view(old(out)@) + shown_if(shown, style, text@),
{
    if shown {
        out.push(Token { style, text: String::from_str(text) });
    }
    proof {
        assert(tokens_view(final(out)@) =~= tokens_view(old(out)@) + shown_if(shown, style, text@));
    }
}

/// Lays out the summary of a repository on `branch` whose working tree has
/// the flags `f`, and which is `ahead` of or `behind` its upstream.
pub fn summary_tokens(branch: &str, f: Flags, ahead: bool, behind: bool) -> (out: Vec<Token>)
    ensures
        tokens_view(out@) == summary_spec(branch@, f, ahead, behind),
{
    let mut out: Vec<Token> = Vec::new();
    assert(tokens_view(out@) =~= seq![]);
    push_if(&mut out, true, Style { colour: Colour::Green, bold: false }, branch);
    assert(tokens_view(out@) =~= seq![(plain(Colour::Green), branch@)]);
    push_if(&mut out, f.dirty, Style { colour: Colour::Blue, bold: false }, "＊");
    push_if(&mut out, f.new_files, Style { colour: Colour::Green, bold: true }, "＋");
    push_if(&mut out, f.untracked, Style { colour: Colour::Yellow, bold: true }, "？");
    push_if(&mut out, f.deleted, Style { colour: Colour::Red, bold: true }, "Ｘ");
    push_if(&mut out, f.moved, Style { colour: Colour::Yellow, bold: true }, "➜");
    let clean = f.is_clean();
    push_if(&mut out, clean, Style { colour: Colour::Green, bold: true }, " ✔");
    let up = if clean || f.deleted || f.moved { " ↑" } else { "↑" };
    assert(up@ == ahead_text(f));
    push_if(&mut out, ahead, Style { colour: Colour::Cyan, bold: false }, up);
    let down = if !ahead && (clean || f.moved) { " ↓" } else { "↓" };
    assert(down@ == behind_text(f, ahead));
    push_if(&mut out, behind, Style { colour: Colour::Cyan, bold: false }, down);
    out
}

/// The text that ansi_term prints for a sequence of styled tokens, escape
/// codes included.
pub uninterp spec fn ansi_text(tokens: Seq<(Style, Seq<char>)>) -> Seq<char>;

/// Relies on ansi_term's `ANSIStrings` display: each token painted in its
/// style, with the escape codes between neighbours kept minimal; no tokens
/// print nothing.
#[verifier::external_body]
pub(crate) fn ansi_strings(tokens: &Vec<Token>) -> (r: String)
    ensures
        r@ == ansi_text(tokens_view(tokens@)),
        tokens@.len() == 0 ==> r@.len() == 0,
{
    let painted: Vec<ansi_term::ANSIString> = tokens.iter().map(|t| {
        let c = match t.style.colour {
            Colour::Blue => ansi_term::Colour::Blue,
            Colour::Cyan => ansi_term::Colour::Cyan,
            Colour::Green => ansi_term::Colour::Green,
            Colour::Red => ansi_term::Colour::Red,
            Colour::Yellow => ansi_term::Colour::Yellow,
        };
        let style = if t.style.bold { c.bold() } else { c.normal() };
        style.paint(t.text.as_str())
    }).collect();
    ansi_term::ANSIStrings(&painted).to_string()
}

/// Prints one piece of text in a plain colour.
pub fn paint(colour: Colour, text: &str) -> (r: String)
    ensures
        r@ == ansi_text(seq![(plain(colour), text@)]),
{
    let mut v: Vec<Token> = Vec::new();
    v.push(Token { style: Style { colour, bold: false }, text: String::from_str(text) });
    assert(tokens_view(v@) =~= seq![(plain(colour), text@)]);
    ansi_strings(&v)
}

} // verus!
