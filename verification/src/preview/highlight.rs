//! The preview of a file held whole: which kind of preview a file gets, and
//! its lines syntax-highlighted by `syntect`.
use vstd::prelude::*;

use syntect::easy::HighlightLines;
use syntect::highlighting::{FontStyle, Theme, ThemeSet};
use syntect::parsing::{SyntaxReference, SyntaxSet};

use crate::text::{chars_of, string_pop, string_push};

verus! {

/// Files at or below this many bytes are loaded whole and highlighted;
/// larger ones are read through the window, so memory stays bounded.
pub const HIGHLIGHT_MAX: u64 = 2097152;

/// A highlighted piece of a line: its text, foreground color and font.
pub struct Piece {
    pub text: String,
    pub r: u8,
    pub g: u8,
    pub b: u8,
    pub bold: bool,
    pub italic: bool,
}

/// The texts of pieces, one after the other.
pub open spec fn piece_texts(ps: Seq<Piece>) -> Seq<char>
    decreases ps.len(),
{
    if ps.len() == 0 {
        Seq::empty()
    } else {
        piece_texts(ps.drop_last()) + ps.last().text@
    }
}

/// A line ending's carriage return: dropped from the end of a line.
pub open spec fn strip_cr(l: Seq<char>) -> Seq<char> {
    if l.len() > 0 && l.last() == '\r' {
        l.drop_last()
    } else {
        l
    }
}

/// The lines of `rest`, the line so far being `cur`: a line ends at each
/// `\n` (a `\r` just before it belongs to the line ending), and the last line
/// needs no ending.
pub open spec fn lines_from(rest: Seq<char>, cur: Seq<char>) -> Seq<Seq<char>>
    decreases rest.len(),
{
    if rest.len() == 0 {
        if cur.len() == 0 {
            Seq::empty()
        } else {
            seq![cur]
        }
    } else if rest[0] == '\n' {
        seq![strip_cr(cur)] + lines_from(rest.drop_first(), Seq::empty())
    } else {
        lines_from(rest.drop_first(), cur.push(rest[0]))
    }
}

/// The lines of a text, as `str::lines` gives them.
pub open spec fn lines_of(s: Seq<char>) -> Seq<Seq<char>> {
    lines_from(s, Seq::empty())
}

/// The lines of `content` (see `lines_of`).
pub fn preview_lines(content: &str) -> (r: Vec<String>)
    ensures
        r@.map_values(|l: String| l@) == lines_of(content@),
{
    let cs = chars_of(content);
    let ghost s = cs@;
    let mut out: Vec<String> = Vec::new();
    let mut cur = String::new();
    let mut ends_cr = false;
    let mut i: usize = 0;
    proof {
        assert(s.skip(0) =~= s);
        assert(out@.map_values(|l: String| l@) + lines_from(s, cur@) =~= lines_of(s));
    }
    while i < cs.len()
        invariant
            s == cs@,
            s == content@,
            i <= s.len(),
            ends_cr == (cur@.len() > 0 && cur@.last() == '\r'),
            out@.map_values(|l: String| l@) + lines_from(s.skip(i as int), cur@) == lines_of(s),
        decreases s.len() - i,
    {
        let ghost before = out@.map_values(|l: String| l@);
        let ghost old_cur = cur@;
        let c = cs[i];
        proof {
            assert(s.skip(i as int).drop_first() =~= s.skip(i + 1));
            assert(s.skip(i as int)[0] == s[i as int]);
        }
        if c == '\n' {
            if ends_cr {
                string_pop(&mut cur);
            }
            let mut done = String::new();
            std::mem::swap(&mut done, &mut cur);
            out.push(done);
            ends_cr = false;
            proof {
                let line = strip_cr(old_cur);
                assert(out@.map_values(|l: String| l@) =~= before.push(line));
                assert(lines_from(s.skip(i as int), old_cur) == seq![line] + lines_from(
                    s.skip(i + 1),
                    Seq::empty(),
                ));
                assert(before.push(line) + lines_from(s.skip(i + 1), Seq::empty()) =~= before + (
                seq![line] + lines_from(s.skip(i + 1), Seq::empty())));
                assert(cur@ =~= Seq::<char>::empty());
            }
        } else {
            string_push(&mut cur, c);
            ends_cr = c == '\r';
            proof {
                assert(lines_from(s.skip(i as int), old_cur) == lines_from(s.skip(i + 1), cur@));
            }
        }
        i = i + 1;
    }
    proof {
        assert(s.skip(s.len() as int) =~= Seq::<char>::empty());
    }
    let ghost before = out@.map_values(|l: String| l@);
    if cur.unicode_len() > 0 {
        let ghost last = cur@;
        out.push(cur);
        proof {
            assert(out@.map_values(|l: String| l@) =~= before + seq![last]);
        }
    } else {
        proof {
            assert(before =~= before + Seq::<Seq<char>>::empty());
        }
    }
    out
}

/// `syntect::parsing::SyntaxSet`, a set of syntax definitions.
#[verifier::external_type_specification]
#[verifier::external_body]
pub struct ExSyntaxSet(SyntaxSet);

/// `syntect::parsing::SyntaxReference`, one syntax of a set.
#[verifier::external_type_specification]
#[verifier::external_body]
pub struct ExSyntaxReference(SyntaxReference);

/// `syntect::highlighting::ThemeSet`, a set of named themes.
#[verifier::external_type_specification]
#[verifier::external_body]
pub struct ExThemeSet(ThemeSet);

/// `syntect::highlighting::Theme`, one color theme.
#[verifier::external_type_specification]
#[verifier::external_body]
pub struct ExTheme(Theme);

/// `syntect::easy::HighlightLines`, a highlighter that carries the parse
/// state from one line to the next.
#[verifier::external_type_specification]
#[verifier::external_body]
pub struct ExHighlightLines<'a>(HighlightLines<'a>);

/// Calls `SyntaxSet::load_defaults_newlines`: the syntaxes built into the
/// crate, for lines read with their endings stripped.
#[verifier::external_body]
fn default_syntaxes() -> SyntaxSet {
    SyntaxSet::load_defaults_newlines()
}

/// Calls `ThemeSet::load_defaults`: the themes built into the crate.
#[verifier::external_body]
fn default_themes() -> ThemeSet {
    ThemeSet::load_defaults()
}

/// Looks up a theme by name in `ThemeSet::themes`.
#[verifier::external_body]
fn theme_named<'a>(themes: &'a ThemeSet, name: &str) -> Option<&'a Theme> {
    themes.themes.get(name)
}

/// Calls `SyntaxSet::find_syntax_by_extension`.
#[verifier::external_body]
fn syntax_by_extension<'a>(set: &'a SyntaxSet, ext: &str) -> Option<&'a SyntaxReference> {
    set.find_syntax_by_extension(ext)
}

/// Calls `SyntaxSet::find_syntax_plain_text`.
#[verifier::external_body]
fn plain_text_syntax<'a>(set: &'a SyntaxSet) -> &'a SyntaxReference {
    set.find_syntax_plain_text()
}

/// Calls `HighlightLines::new`.
#[verifier::external_body]
fn new_highlighter<'a>(syntax: &SyntaxReference, theme: &'a Theme) -> HighlightLines<'a> {
    HighlightLines::new(syntax, theme)
}

/// Calls `HighlightLines::highlight_line`, each `(Style, &str)` token as a
/// piece (foreground color, bold, italic); `None` where the line fails to
/// parse. The tokens' texts together make the line, as the crate documents
/// for `HighlightIterator`; their styles depend on the highlighter's state
/// and are not stated.
#[verifier::external_body]
fn highlight_line(h: &mut HighlightLines, line: &str, set: &SyntaxSet) -> (r: Option<Vec<Piece>>)
    ensures
        r matches Some(ps) ==> piece_texts(ps@) == line@,
{
    let tokens = h.highlight_line(line, set).ok()?;
    Some(tokens.iter().map(|(s, t)| Piece {
        text: t.to_string(),
        r: s.foreground.r,
        g: s.foreground.g,
        b: s.foreground.b,
        bold: s.font_style.contains(FontStyle::BOLD),
        italic: s.font_style.contains(FontStyle::ITALIC),
    }).collect())
}

/// The theme previews are highlighted with.
pub fn preview_theme() -> (r: &'static str)
    ensures
        r@ == "base16-ocean.dark"@,
{
    "base16-ocean.dark"
}

/// The lines of `content` highlighted with `syntect`'s default syntaxes and
/// the preview theme: the syntax is the one for the extension `ext`, plain
/// text where there is none or none fits. Each line's pieces together make
/// the line, or there are none where the line failed to highlight. `None`
/// where the theme set lacks the preview theme.
pub fn highlight(content: &str, ext: Option<&str>) -> (r: Option<Vec<Vec<Piece>>>)
    ensures
        r matches Some(ls) ==> {
            &&& ls@.len() == lines_of(content@).len()
            &&& forall|i: int|
                0 <= i < ls@.len() ==> #[trigger] ls@[i]@.len() == 0 || piece_texts(ls@[i]@)
                    == lines_of(content@)[i]
        },
{
    let set = default_syntaxes();
    let themes = default_themes();
    let theme = match theme_named(&themes, preview_theme()) {
        Some(t) => t,
        None => return None,
    };
    let found = match ext {
        Some(e) => syntax_by_extension(&set, e),
        None => None,
    };
    let syntax = match found {
        Some(s) => s,
        None => plain_text_syntax(&set),
    };
    let mut h = new_highlighter(syntax, theme);
    let lines = preview_lines(content);
    let mut out: Vec<Vec<Piece>> = Vec::new();
    let mut i: usize = 0;
    while i < lines.len()
        invariant
            lines@.map_values(|l: String| l@) == lines_of(content@),
            i <= lines@.len(),
            out@.len() == i,
            forall|j: int|
                0 <= j < i ==> #[trigger] out@[j]@.len() == 0 || piece_texts(out@[j]@)
                    == lines@[j]@,
        decreases lines@.len() - i,
    {
        let pieces = match highlight_line(&mut h, lines[i].as_str(), &set) {
            Some(ps) => ps,
            None => Vec::new(),
        };
        out.push(pieces);
        i = i + 1;
    }
    proof {
        assert forall|i: int| 0 <= i < out@.len() implies #[trigger] out@[i]@.len() == 0
            || piece_texts(out@[i]@) == lines_of(content@)[i] by {
            assert(lines@.map_values(|l: String| l@)[i] == lines@[i]@);
        }
    }
    Some(out)
}

/// What a file's preview is.
pub enum PreviewPlan {
    /// A one-line message; `binary` where the file is binary.
    Message { text: String, binary: bool },
    /// The text, held whole and highlighted.
    Whole,
    /// Read through the window.
    Windowed,
}

/// What a file's preview is: `meta_len` is its size (`None` where its
/// metadata cannot be read), `binary` whether its first bytes look binary,
/// `text_ok` whether it was read whole as UTF-8 text (asked only of a file
/// of at most `HIGHLIGHT_MAX` bytes). A small text is held whole; a large
/// file, or a small one that is no UTF-8, is read through the window.
pub open spec fn plan_of(meta_len: Option<u64>, binary: bool, text_ok: bool) -> (Seq<char>, bool, int) {
    match meta_len {
        None => ("Cannot read file"@, false, 0),
        Some(n) => if binary {
            ("[Binary file]"@, true, 0)
        } else if n <= HIGHLIGHT_MAX && text_ok {
            (Seq::empty(), false, 1)
        } else {
            (Seq::empty(), false, 2)
        },
    }
}

/// The preview a file gets (see `plan_of`: a message, or 1 for whole, 2 for
/// windowed).
pub fn preview_plan(meta_len: Option<u64>, binary: bool, text_ok: bool) -> (r: PreviewPlan)
    ensures
        match r {
            PreviewPlan::Message { text, binary: b } => plan_of(meta_len, binary, text_ok) == (
                text@,
                b,
                0int,
            ),
            PreviewPlan::Whole => plan_of(meta_len, binary, text_ok).2 == 1,
            PreviewPlan::Windowed => plan_of(meta_len, binary, text_ok).2 == 2,
        },
{
    match meta_len {
        None => PreviewPlan::Message { text: String::from_str("Cannot read file"), binary: false },
        Some(n) => if binary {
            PreviewPlan::Message { text: String::from_str("[Binary file]"), binary: true }
        } else if n <= HIGHLIGHT_MAX && text_ok {
            PreviewPlan::Whole
        } else {
            PreviewPlan::Windowed
        },
    }
}

} // verus!
