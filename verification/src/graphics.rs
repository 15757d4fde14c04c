//! Terminal graphics: which image protocol to draw with, and the rules that
//! decide it from the configuration, the terminal's name and what the
//! terminal reported.
use vstd::prelude::*;

use crate::config::PreviewConfig;
use crate::text::{
    ascii_lower_seq, chars_of, concat, contains_chars, contains_seq, decimal, decimal_string,
    find_chars, find_from, string_of, sub_chars, spec_utf8_lossy, to_ascii_lower_chars, trim_chars,
    trim_seq, utf8_lossy,
};

verus! {

/// How images should be drawn, from config or the `NCOXIDE_IMAGES` override.
#[derive(Debug, Clone, Copy, PartialEq, Eq, Structural)]
pub enum ImageMode {
    /// Query the terminal and use the best protocol it reports.
    Auto,
    /// Never decode: image files show their header facts only.
    Off,
    /// Unicode half-blocks, no query (works everywhere, low resolution).
    Halfblocks,
    Sixel,
    Kitty,
    Iterm2,
}

/// A terminal image protocol.
#[derive(Debug, Clone, Copy, PartialEq, Eq, Structural)]
pub enum Protocol {
    Halfblocks,
    Sixel,
    Kitty,
    Iterm2,
}

/// What a terminal reported supporting, as far as the protocol choice goes.
#[derive(Debug, Clone, Copy, PartialEq, Eq, Structural)]
pub enum Capability {
    Kitty,
    Sixel,
    /// Anything else the terminal reported.
    Other,
}

/// The name of the per-shell override of `[preview] images`.
pub fn images_env() -> (r: &'static str)
    ensures
        r@ == "NCOXIDE_IMAGES"@,
{
    "NCOXIDE_IMAGES"
}

impl ImageMode {
    /// The mode a (trimmed, ASCII-lowercased) word names.
    pub open spec fn spec_word(w: Seq<char>) -> Option<ImageMode> {
        if w == "auto"@ {
            Some(ImageMode::Auto)
        } else if w == "off"@ || w == "false"@ || w == "no"@ || w == "none"@ {
            Some(ImageMode::Off)
        } else if w == "halfblocks"@ || w == "blocks"@ {
            Some(ImageMode::Halfblocks)
        } else if w == "sixel"@ {
            Some(ImageMode::Sixel)
        } else if w == "kitty"@ {
            Some(ImageMode::Kitty)
        } else if w == "iterm2"@ || w == "iterm"@ {
            Some(ImageMode::Iterm2)
        } else {
            None
        }
    }

    /// The mode a configuration value names, ignoring surrounding
    /// whitespace and ASCII case.
    pub open spec fn spec_parse(value: Seq<char>) -> Option<ImageMode> {
        ImageMode::spec_word(ascii_lower_seq(trim_seq(value)))
    }

    pub fn parse(value: &str) -> (r: Option<ImageMode>)
        ensures
            r == ImageMode::spec_parse(value@),
    {
        let v = chars_of(value);
        let t = trim_chars(&v);
        let w = to_ascii_lower_chars(&t);
        if is_word(&w, "auto") {
            Some(ImageMode::Auto)
        } else if is_word(&w, "off") || is_word(&w, "false") || is_word(&w, "no") || is_word(
            &w,
            "none",
        ) {
            Some(ImageMode::Off)
        } else if is_word(&w, "halfblocks") || is_word(&w, "blocks") {
            Some(ImageMode::Halfblocks)
        } else if is_word(&w, "sixel") {
            Some(ImageMode::Sixel)
        } else if is_word(&w, "kitty") {
            Some(ImageMode::Kitty)
        } else if is_word(&w, "iterm2") || is_word(&w, "iterm") {
            Some(ImageMode::Iterm2)
        } else {
            None
        }
    }

    /// The mode in force: the env override wins over the config value; an
    /// unknown value in either is skipped rather than turning images off.
    pub open spec fn spec_resolve(config_value: Seq<char>, env_value: Option<Seq<char>>) -> ImageMode {
        match env_value {
            Some(e) if ImageMode::spec_parse(e) is Some => ImageMode::spec_parse(e)->0,
            _ => match ImageMode::spec_parse(config_value) {
                Some(m) => m,
                None => ImageMode::Auto,
            },
        }
    }

    pub fn resolve(config_value: &str, env_value: Option<&str>) -> (r: ImageMode)
        ensures
            r == ImageMode::spec_resolve(
                config_value@,
                match env_value {
                    Some(e) => Some(e@),
                    None => None,
                },
            ),
    {
        if let Some(e) = env_value {
            if let Some(mode) = ImageMode::parse(e) {
                return mode;
            }
        }
        match ImageMode::parse(config_value) {
            Some(mode) => mode,
            None => ImageMode::Auto,
        }
    }

    /// The protocol this mode forces, if it names one.
    pub open spec fn spec_forced(self) -> Option<Protocol> {
        match self {
            ImageMode::Sixel => Some(Protocol::Sixel),
            ImageMode::Kitty => Some(Protocol::Kitty),
            ImageMode::Iterm2 => Some(Protocol::Iterm2),
            _ => None,
        }
    }

    pub fn forced(self) -> (r: Option<Protocol>)
        ensures
            r == self.spec_forced(),
    {
        match self {
            ImageMode::Sixel => Some(Protocol::Sixel),
            ImageMode::Kitty => Some(Protocol::Kitty),
            ImageMode::Iterm2 => Some(Protocol::Iterm2),
            ImageMode::Auto | ImageMode::Off | ImageMode::Halfblocks => None,
        }
    }

    /// Whether this mode asks the terminal what it supports (all but `off`
    /// and `halfblocks`).
    pub fn queries_terminal(self) -> (r: bool)
        ensures
            r == !(self is Off || self is Halfblocks),
    {
        match self {
            ImageMode::Off | ImageMode::Halfblocks => false,
            _ => true,
        }
    }

    /// The configuration word of this mode.
    pub open spec fn spec_name(self) -> Seq<char> {
        match self {
            ImageMode::Auto => "auto"@,
            ImageMode::Off => "off"@,
            ImageMode::Halfblocks => "halfblocks"@,
            ImageMode::Sixel => "sixel"@,
            ImageMode::Kitty => "kitty"@,
            ImageMode::Iterm2 => "iterm2"@,
        }
    }

    /// The configuration word of this mode (how it is displayed).
    pub fn name(self) -> (r: &'static str)
        ensures
            r@ == self.spec_name(),
    {
        match self {
            ImageMode::Auto => "auto",
            ImageMode::Off => "off",
            ImageMode::Halfblocks => "halfblocks",
            ImageMode::Sixel => "sixel",
            ImageMode::Kitty => "kitty",
            ImageMode::Iterm2 => "iterm2",
        }
    }
}

impl Protocol {
    /// The protocol's name as it is logged.
    pub open spec fn spec_name(self) -> Seq<char> {
        match self {
            Protocol::Halfblocks => "Halfblocks"@,
            Protocol::Sixel => "Sixel"@,
            Protocol::Kitty => "Kitty"@,
            Protocol::Iterm2 => "Iterm2"@,
        }
    }

    pub fn name(self) -> (r: &'static str)
        ensures
            r@ == self.spec_name(),
    {
        match self {
            Protocol::Halfblocks => "Halfblocks",
            Protocol::Sixel => "Sixel",
            Protocol::Kitty => "Kitty",
            Protocol::Iterm2 => "Iterm2",
        }
    }
}

fn is_word(v: &Vec<char>, w: &str) -> (r: bool)
    ensures
        r == (v@ == w@),
{
    let wc = chars_of(w);
    crate::text::chars_eq(v, &wc)
}

/// The XTVERSION reply start, `ESC P > |`.
pub open spec fn dcs_start() -> Seq<char> {
    seq!['\x1b', 'P', '>', '|']
}

/// The reply end: `ESC \` (ST), else the C1 ST character.
pub open spec fn reply_end(rest: Seq<char>) -> int {
    match find_from(rest, seq!['\x1b', '\\'], 0) {
        Some(e) => e,
        None => match find_from(rest, seq!['\u{9c}'], 0) {
            Some(e) => e,
            None => rest.len() as int,
        },
    }
}

/// `name version` out of a `DCS > | … ST` reply, if the text holds one.
pub open spec fn xtversion_of(text: Seq<char>) -> Option<Seq<char>> {
    match find_from(text, dcs_start(), 0) {
        None => None,
        Some(s) => {
            let rest = text.skip(s + 4);
            let name = trim_seq(rest.take(reply_end(rest)));
            if name.len() > 0 {
                Some(name)
            } else {
                None
            }
        },
    }
}

/// `name version` out of a `DCS > | … ST` reply, if `bytes` holds one.
pub fn parse_xtversion(bytes: &[u8]) -> (r: Option<String>)
    ensures
        match xtversion_of(spec_utf8_lossy(bytes@)) {
            Some(n) => r matches Some(s) && s@ == n,
            None => r is None,
        },
{
    let text = utf8_lossy(bytes);
    let t = chars_of(text.as_str());
    let mut start_pat: Vec<char> = Vec::new();
    start_pat.push('\x1b');
    start_pat.push('P');
    start_pat.push('>');
    start_pat.push('|');
    assert(start_pat@ =~= dcs_start());
    let s = match find_chars(&t, &start_pat) {
        Some(s) => s,
        None => return None,
    };
    assert(s + 4 <= t.len());
    assert(find_from(spec_utf8_lossy(bytes@), dcs_start(), 0) == Some(s as int));
    let rest = sub_chars(&t, s + 4, t.len());
    assert(rest@ =~= t@.skip(s + 4));
    let mut st: Vec<char> = Vec::new();
    st.push('\x1b');
    st.push('\\');
    let mut c1: Vec<char> = Vec::new();
    c1.push('\u{9c}');
    assert(st@ =~= seq!['\x1b', '\\']);
    assert(c1@ =~= seq!['\u{9c}']);
    let end = match find_chars(&rest, &st) {
        Some(e) => e,
        None => match find_chars(&rest, &c1) {
            Some(e) => e,
            None => rest.len(),
        },
    };
    assert(end as int == reply_end(rest@));
    let head = sub_chars(&rest, 0, end);
    assert(head@ =~= rest@.take(end as int));
    let name = trim_chars(&head);
    if name.len() > 0 {
        Some(string_of(&name))
    } else {
        None
    }
}

/// The terminal name says WezTerm (any ASCII case).
pub open spec fn spec_is_wezterm(terminal: Option<Seq<char>>) -> bool {
    match terminal {
        Some(t) => contains_seq(ascii_lower_seq(t), "wezterm"@),
        None => false,
    }
}

pub fn is_wezterm(terminal: Option<&str>) -> (r: bool)
    ensures
        r == spec_is_wezterm(
            match terminal {
                Some(t) => Some(t@),
                None => None,
            },
        ),
{
    match terminal {
        Some(t) => {
            let tc = chars_of(t);
            let l = to_ascii_lower_chars(&tc);
            let w = chars_of("wezterm");
            contains_chars(&l, &w)
        },
        None => false,
    }
}

/// Protocols to leave out of the terminal query. On WezTerm: Kitty (no
/// unicode placeholders) and, unless zellij is in between, Sixel (glitchy;
/// iTerm2 is the clean path there). Through zellij only Kitty and Sixel
/// are forwarded, so Sixel stays in.
pub fn blacklist_for(wezterm: bool, zellij: bool) -> (r: Vec<Protocol>)
    ensures
        !wezterm ==> r@ == Seq::<Protocol>::empty(),
        wezterm && zellij ==> r@ == seq![Protocol::Kitty],
        wezterm && !zellij ==> r@ == seq![Protocol::Kitty, Protocol::Sixel],
{
    let mut v: Vec<Protocol> = Vec::new();
    if wezterm {
        v.push(Protocol::Kitty);
        if !zellij {
            v.push(Protocol::Sixel);
        }
    }
    proof {
        if wezterm && !zellij {
            assert(v@ =~= seq![Protocol::Kitty, Protocol::Sixel]);
        } else if wezterm {
            assert(v@ =~= seq![Protocol::Kitty]);
        } else {
            assert(v@ =~= Seq::<Protocol>::empty());
        }
    }
    v
}

/// The protocol to use regardless of what the query found: iTerm2 on a
/// directly attached WezTerm.
pub fn protocol_override(wezterm: bool, zellij: bool) -> (r: Option<Protocol>)
    ensures
        r == if wezterm && !zellij {
            Some(Protocol::Iterm2)
        } else {
            None
        },
{
    if wezterm && !zellij {
        Some(Protocol::Iterm2)
    } else {
        None
    }
}

/// The protocol the terminal reported support for, best first.
pub open spec fn spec_best_capability(caps: Seq<Capability>) -> Option<Protocol> {
    if caps.contains(Capability::Kitty) {
        Some(Protocol::Kitty)
    } else if caps.contains(Capability::Sixel) {
        Some(Protocol::Sixel)
    } else {
        None
    }
}

pub fn best_capability(caps: &[Capability]) -> (r: Option<Protocol>)
    ensures
        r == spec_best_capability(caps@),
{
    let mut kitty = false;
    let mut sixel = false;
    let mut i: usize = 0;
    while i < caps.len()
        invariant
            i <= caps.len(),
            kitty == caps@.take(i as int).contains(Capability::Kitty),
            sixel == caps@.take(i as int).contains(Capability::Sixel),
        decreases caps.len() - i,
    {
        proof {
            let pre = caps@.take(i as int);
            assert(caps@.take(i + 1) =~= pre.push(caps@[i as int]));
            assert forall|c: Capability| pre.push(caps@[i as int]).contains(c) == (pre.contains(c)
                || caps@[i as int] == c) by {
                if pre.push(caps@[i as int]).contains(c) {
                    let k = choose|k: int| 0 <= k < pre.len() + 1 && pre.push(caps@[i as int])[k] == c;
                    if k < pre.len() {
                        assert(pre[k] == c);
                    }
                }
                if pre.contains(c) {
                    let k = choose|k: int| 0 <= k < pre.len() && pre[k] == c;
                    assert(pre.push(caps@[i as int])[k] == c);
                }
                if caps@[i as int] == c {
                    assert(pre.push(caps@[i as int])[pre.len() as int] == c);
                }
            }
        }
        match caps[i] {
            Capability::Kitty => kitty = true,
            Capability::Sixel => sixel = true,
            Capability::Other => {},
        }
        i = i + 1;
    }
    proof {
        assert(caps@.take(caps.len() as int) =~= caps@);
    }
    if kitty {
        Some(Protocol::Kitty)
    } else if sixel {
        Some(Protocol::Sixel)
    } else {
        None
    }
}

/// What a picker draws with: its protocol and the cell size in pixels.
#[derive(Debug, Clone, Copy, PartialEq, Eq, Structural)]
pub struct PickerInfo {
    pub protocol: Protocol,
    pub font_width: u16,
    pub font_height: u16,
}

/// What the terminal query found: the picker it gave, what the terminal
/// reported supporting, and the terminal's XTVERSION reply.
#[derive(Debug, Clone)]
pub struct QueryResult {
    pub picker: PickerInfo,
    pub capabilities: Vec<Capability>,
    pub terminal: Option<String>,
}

/// How images are drawn (if at all) and how that was arrived at.
#[derive(Debug, Clone)]
pub struct Probe {
    pub mode: ImageMode,
    pub picker: Option<PickerInfo>,
    pub source: String,
    /// The terminal's XTVERSION reply, when it gave one.
    pub terminal: Option<String>,
    /// A terminal-specific rule that changed the outcome.
    pub rule: Option<String>,
}

/// The picker of the half-block mode, which needs no query.
pub open spec fn halfblocks_picker() -> PickerInfo {
    PickerInfo { protocol: Protocol::Halfblocks, font_width: 10, font_height: 20 }
}

pub open spec fn opt_str(s: Option<String>) -> Option<Seq<char>> {
    match s {
        Some(t) => Some(t@),
        None => None,
    }
}

/// The picker and rule after the terminal-specific rules: a directly
/// attached WezTerm gets iTerm2.
pub open spec fn ruled_picker(q: QueryResult, zellij: bool) -> PickerInfo {
    let wez = spec_is_wezterm(opt_str(q.terminal));
    if wez && !zellij {
        PickerInfo { protocol: Protocol::Iterm2, ..q.picker }
    } else {
        q.picker
    }
}

pub open spec fn rule_text(q: QueryResult, zellij: bool) -> Option<Seq<char>> {
    let wez = spec_is_wezterm(opt_str(q.terminal));
    if wez && !zellij {
        Some("WezTerm: iTerm2 instead of Kitty/Sixel"@)
    } else if wez {
        Some("WezTerm through zellij: Kitty left out"@)
    } else {
        None
    }
}

/// The configured cell size, when both sides are positive.
pub open spec fn usable_font(f: Option<[u16; 2]>) -> Option<(u16, u16)> {
    match f {
        Some(a) => if a[0] > 0 && a[1] > 0 {
            Some((a[0], a[1]))
        } else {
            None
        },
        None => None,
    }
}

/// The picker after the configured cell size (which restores the protocol
/// the terminal reported) and a forced protocol.
pub open spec fn settled_picker(mode: ImageMode, q: QueryResult, zellij: bool, font: Option<[u16; 2]>) -> PickerInfo {
    let p = ruled_picker(q, zellij);
    let sized = match usable_font(font) {
        Some((w, h)) => PickerInfo {
            protocol: match spec_best_capability(q.capabilities@) {
                Some(b) => b,
                None => p.protocol,
            },
            font_width: w,
            font_height: h,
        },
        None => p,
    };
    match mode.spec_forced() {
        Some(f) => PickerInfo { protocol: f, ..sized },
        None => sized,
    }
}

pub open spec fn settled_source(mode: ImageMode, font: Option<[u16; 2]>) -> Seq<char> {
    if mode.spec_forced() is Some {
        "forced by config"@
    } else if usable_font(font) is Some {
        "terminal query + configured font size"@
    } else {
        "terminal query"@
    }
}

/// The outcome of the probe for a mode: `off` draws nothing, `halfblocks`
/// needs no query, every other mode goes by what the query found.
pub open spec fn probe_outcome(
    mode: ImageMode,
    queried: Option<QueryResult>,
    zellij: bool,
    font: Option<[u16; 2]>,
    p: Probe,
) -> bool {
    &&& p.mode == mode
    &&& match mode {
        ImageMode::Off => p.picker is None && p.source@ == "off"@ && p.terminal is None
            && p.rule is None,
        ImageMode::Halfblocks => p.picker == Some(halfblocks_picker()) && p.source@
            == "halfblocks, no query"@ && p.terminal is None && p.rule is None,
        _ => match queried {
            None => p.picker is None && p.source@ == "no terminal"@ && p.terminal is None
                && p.rule is None,
            Some(q) => {
                &&& p.picker == Some(settled_picker(mode, q, zellij, font))
                &&& p.source@ == settled_source(mode, font)
                &&& opt_str(p.terminal) == opt_str(q.terminal)
                &&& opt_str(p.rule) == rule_text(q, zellij)
            },
        },
    }
}

/// Decide how images are drawn from the configuration, the
/// `NCOXIDE_IMAGES` value, whether zellij is in between, and what the
/// terminal query found (`None` when there was no terminal to ask or the
/// query failed; it is not consulted for `off` and `halfblocks`).
pub fn probe(
    config: &PreviewConfig,
    env_value: Option<&str>,
    zellij: bool,
    queried: Option<QueryResult>,
) -> (r: Probe)
    ensures
        probe_outcome(
            ImageMode::spec_resolve(
                config.images@,
                match env_value {
                    Some(e) => Some(e@),
                    None => None,
                },
            ),
            queried,
            zellij,
            config.image_font_size,
            r,
        ),
{
    let mode = ImageMode::resolve(config.images.as_str(), env_value);
    match mode {
        ImageMode::Off => Probe {
            mode,
            picker: None,
            source: String::from_str("off"),
            terminal: None,
            rule: None,
        },
        ImageMode::Halfblocks => Probe {
            mode,
            picker: Some(PickerInfo { protocol: Protocol::Halfblocks, font_width: 10, font_height: 20 }),
            source: String::from_str("halfblocks, no query"),
            terminal: None,
            rule: None,
        },
        _ => {
            let q = match queried {
                Some(q) => q,
                None => {
                    return Probe {
                        mode,
                        picker: None,
                        source: String::from_str("no terminal"),
                        terminal: None,
                        rule: None,
                    };
                },
            };
            let wez = is_wezterm(
                match &q.terminal {
                    Some(t) => Some(t.as_str()),
                    None => None,
                },
            );
            let mut picker = q.picker;
            let mut rule: Option<String> = None;
            if let Some(proto) = protocol_override(wez, zellij) {
                picker.protocol = proto;
                rule = Some(String::from_str("WezTerm: iTerm2 instead of Kitty/Sixel"));
            } else if wez {
                rule = Some(String::from_str("WezTerm through zellij: Kitty left out"));
            }
            let mut source = String::from_str("terminal query");
            if let Some(f) = config.image_font_size {
                if f[0] > 0 && f[1] > 0 {
                    let detected = match best_capability(q.capabilities.as_slice()) {
                        Some(b) => b,
                        None => picker.protocol,
                    };
                    picker = PickerInfo { protocol: detected, font_width: f[0], font_height: f[1] };
                    source = String::from_str("terminal query + configured font size");
                }
            }
            if let Some(forced) = mode.forced() {
                picker.protocol = forced;
                source = String::from_str("forced by config");
            }
            Probe { mode, picker: Some(picker), source, terminal: q.terminal, rule }
        },
    }
}

/// The one-line summary of a probe for the log.
pub open spec fn describe_text(p: Probe) -> Seq<char> {
    let how = p.source@ + match p.terminal {
        Some(t) => "; terminal "@ + t@,
        None => Seq::empty(),
    } + match p.rule {
        Some(r) => "; "@ + r@,
        None => Seq::empty(),
    };
    match p.picker {
        None => "mode "@ + p.mode.spec_name() + " \u{2192} no graphics ("@ + how + ")"@,
        Some(k) => "mode "@ + p.mode.spec_name() + " \u{2192} "@ + k.protocol.spec_name() + ", cell "@
            + decimal(k.font_width as nat) + "x"@ + decimal(k.font_height as nat) + " px ("@ + how
            + ")"@,
    }
}

/// One-line summary of a probe for the log.
pub fn describe(p: &Probe) -> (r: String)
    ensures
        r@ == describe_text(*p),
{
    let mut how = p.source.clone();
    if let Some(t) = &p.terminal {
        how.append("; terminal ");
        how.append(t.as_str());
    }
    if let Some(rl) = &p.rule {
        how.append("; ");
        how.append(rl.as_str());
    }
    let mut out = String::from_str("mode ");
    out.append(p.mode.name());
    match &p.picker {
        None => {
            out.append(" \u{2192} no graphics (");
            out.append(how.as_str());
            out.append(")");
        },
        Some(k) => {
            out.append(" \u{2192} ");
            out.append(k.protocol.name());
            out.append(", cell ");
            out.append(decimal_string(k.font_width as u64).as_str());
            out.append("x");
            out.append(decimal_string(k.font_height as u64).as_str());
            out.append(" px (");
            out.append(how.as_str());
            out.append(")");
        },
    }
    proof {
        assert(out@ =~= describe_text(*p));
    }
    out
}

/// The notes of the probe report: a terminal that reported a protocol but
/// no cell size (so half-blocks are drawn), and iTerm2 chosen inside zellij,
/// which never forwards it.
pub open spec fn notes_of(protocol: Protocol, caps: Seq<Capability>, zellij: bool) -> Seq<Seq<char>> {
    (if protocol == Protocol::Halfblocks && spec_best_capability(caps) is Some {
        seq![
            "  note: the terminal reported "@ + spec_best_capability(caps)->0.spec_name()
                + " but no cell size; set [preview] image_font_size = [width_px, height_px] to use it"@,
        ]
    } else {
        Seq::empty()
    }) + (if zellij && protocol == Protocol::Iterm2 {
        seq!["  note: iTerm2 inside zellij shows nothing; use kitty or sixel"@]
    } else {
        Seq::empty()
    })
}

/// The notes of the probe report (see `notes_of`).
pub fn report_notes(protocol: Protocol, caps: &[Capability], zellij: bool) -> (r: Vec<String>)
    ensures
        r@.map_values(|s: String| s@) == notes_of(protocol, caps@, zellij),
{
    let mut notes: Vec<String> = Vec::new();
    if protocol == Protocol::Halfblocks {
        if let Some(best) = best_capability(caps) {
            let a = concat("  note: the terminal reported ", best.name());
            notes.push(
                concat(
                    a.as_str(),
                    " but no cell size; set [preview] image_font_size = [width_px, height_px] to use it",
                ),
            );
        }
    }
    if zellij && protocol == Protocol::Iterm2 {
        notes.push(String::from_str("  note: iTerm2 inside zellij shows nothing; use kitty or sixel"));
    }
    proof {
        assert(notes@.map_values(|s: String| s@) =~= notes_of(protocol, caps@, zellij));
    }
    notes
}

} // verus!
