//! The text of `--probe-terminal`: the environment that decides image
//! drawing (secrets shown only by their length), the configuration, the
//! outcome of the probe and its notes.
use vstd::prelude::*;

use crate::graphics::{describe, describe_text, images_env, notes_of, report_notes, Capability, Probe};
use crate::pane::opt_view;
use crate::text::{decimal, decimal_string};

verus! {

/// What `format!("{:?}", s)` gives for a text: the text quoted, with
/// quotes, backslashes and unprintable characters escaped.
pub uninterp spec fn spec_debug_quoted(s: Seq<char>) -> Seq<char>;

/// Calls `<str as Debug>::fmt` through `format!("{:?}", s)`.
#[verifier::external_body]
fn debug_quote(s: &str) -> (r: String)
    ensures
        r@ == spec_debug_quoted(s@),
{
    format!("{:?}", s)
}

/// The environment variables the report shows, in order.
pub open spec fn report_var_names() -> Seq<Seq<char>> {
    seq![
        "TERM"@,
        "TERM_PROGRAM"@,
        "WEZTERM_EXECUTABLE"@,
        "KITTY_WINDOW_ID"@,
        "ZELLIJ"@,
        "TMUX"@,
        "SSH_CONNECTION"@,
    ]
}

/// The environment variables the report shows (see `report_var_names`).
pub fn report_vars() -> (r: Vec<&'static str>)
    ensures
        r@.map_values(|s: &str| s@) == report_var_names(),
{
    let r = vec![
        "TERM",
        "TERM_PROGRAM",
        "WEZTERM_EXECUTABLE",
        "KITTY_WINDOW_ID",
        "ZELLIJ",
        "TMUX",
        "SSH_CONNECTION",
    ];
    proof {
        assert(r@.map_values(|s: &str| s@) =~= report_var_names());
    }
    r
}

/// A variable whose value is not shown, only its length in bytes.
pub open spec fn redacted(name: Seq<char>) -> bool {
    name == "SSH_CONNECTION"@ || name == "WEZTERM_EXECUTABLE"@
}

/// How a variable's value is shown.
pub open spec fn shown_value(name: Seq<char>, value: Option<Seq<char>>) -> Seq<char> {
    match value {
        None => "unset"@,
        Some(v) => if redacted(name) {
            "(set, "@ + decimal(vstd::utf8::encode_utf8(v).len()) + " chars)"@
        } else {
            spec_debug_quoted(v)
        },
    }
}

/// A name padded with spaces to 20 characters.
pub open spec fn padded(name: Seq<char>) -> Seq<char> {
    name + Seq::new(
        if name.len() < 20 {
            (20 - name.len()) as nat
        } else {
            0
        },
        |i: int| ' ',
    )
}

/// The line of one variable.
pub open spec fn var_line(name: Seq<char>, value: Option<Seq<char>>) -> Seq<char> {
    "  "@ + padded(name) + " "@ + shown_value(name, value) + "\n"@
}

/// The lines of the variables.
pub open spec fn var_lines(env: Seq<(Seq<char>, Option<Seq<char>>)>) -> Seq<char>
    decreases env.len(),
{
    if env.len() == 0 {
        Seq::empty()
    } else {
        var_lines(env.drop_last()) + var_line(env.last().0, env.last().1)
    }
}

/// Texts each followed by a newline.
pub open spec fn lines_of(ls: Seq<Seq<char>>) -> Seq<char>
    decreases ls.len(),
{
    if ls.len() == 0 {
        Seq::empty()
    } else {
        lines_of(ls.drop_last()) + ls.last() + "\n"@
    }
}

/// The environment as plain values.
pub open spec fn env_view(env: Seq<(String, Option<String>)>) -> Seq<(Seq<char>, Option<Seq<char>>)> {
    env.map_values(|p: (String, Option<String>)| (p.0@, opt_view(p.1)))
}

/// The report: the variables `env` (name and value where set), the
/// configured `images` and the value of the override variable, the
/// configured cell size, the probe's outcome, and, where a protocol was
/// chosen, the terminal's capabilities (`caps_text`, as the terminal library
/// prints them) and the notes on them.
pub open spec fn report_of(
    env: Seq<(Seq<char>, Option<Seq<char>>)>,
    images: Seq<char>,
    images_env_value: Option<Seq<char>>,
    font: Option<[u16; 2]>,
    probe: Probe,
    caps_text: Seq<char>,
    caps: Seq<Capability>,
    zellij: bool,
) -> Seq<char> {
    "ncoxide terminal graphics probe\n"@ + var_lines(env) + "  [preview] images = "@
        + spec_debug_quoted(images) + ", "@ + "NCOXIDE_IMAGES"@ + " "@ + match images_env_value {
        None => "unset"@,
        Some(v) => "= "@ + spec_debug_quoted(v),
    } + "\n"@ + match font {
        Some(f) => "  [preview] image_font_size = ["@ + decimal(f[0] as nat) + ", "@ + decimal(
            f[1] as nat,
        ) + "]\n"@,
        None => Seq::empty(),
    } + "result: "@ + describe_text(probe) + "\n"@ + "  terminal (XTVERSION): "@
        + match probe.terminal {
        Some(t) => t@,
        None => "no reply"@,
    } + "\n"@ + match probe.picker {
        Some(p) => "  capabilities: "@ + caps_text + "\n"@ + lines_of(
            notes_of(p.protocol, caps, zellij),
        ),
        None => Seq::empty(),
    }
}

/// The line of one variable (see `var_line`).
fn var_text(name: &str, value: &Option<String>) -> (r: String)
    ensures
        r@ == var_line(name@, opt_view(*value)),
{
    let mut out = String::from_str("  ");
    out.append(name);
    let n = name.unicode_len();
    let mut k: usize = n;
    while k < 20
        invariant
            n == name@.len(),
            n <= k,
            k <= 20 || k == n,
            out@ == "  "@ + name@ + Seq::new((k - n) as nat, |i: int| ' '),
        decreases 20 - k,
    {
        out.append(" ");
        proof {
            reveal_strlit(" ");
            assert(out@ =~= "  "@ + name@ + Seq::new((k + 1 - n) as nat, |i: int| ' '));
        }
        k = k + 1;
    }
    proof {
        assert(Seq::new((k - n) as nat, |i: int| ' ') =~= Seq::new(
            if n < 20 {
                (20 - n) as nat
            } else {
                0
            },
            |i: int| ' ',
        ));
        assert("  "@ + name@ + Seq::new((k - n) as nat, |i: int| ' ') =~= "  "@ + padded(name@));
    }
    let ghost head = out@;
    out.append(" ");
    match value {
        None => out.append("unset"),
        Some(v) => {
            let secret = crate::text::str_eq(name, "SSH_CONNECTION") || crate::text::str_eq(
                name,
                "WEZTERM_EXECUTABLE",
            );
            if secret {
                out.append("(set, ");
                let len = v.as_str().as_bytes().len();
                out.append(decimal_string(len as u64).as_str());
                out.append(" chars)");
            } else {
                out.append(debug_quote(v.as_str()).as_str());
            }
        },
    }
    proof {
        assert(out@ =~= head + " "@ + shown_value(name@, opt_view(*value)));
    }
    out.append("\n");
    proof {
        assert(out@ =~= var_line(name@, opt_view(*value)));
    }
    out
}

/// The report of `--probe-terminal` (see `report_of`).
pub fn report_text(
    env: &Vec<(String, Option<String>)>,
    images: &str,
    images_env_value: Option<&str>,
    font: Option<[u16; 2]>,
    probe: &Probe,
    caps_text: &str,
    caps: &[Capability],
    zellij: bool,
) -> (r: String)
    ensures
        r@ == report_of(
            env_view(env@),
            images@,
            match images_env_value {
                Some(v) => Some(v@),
                None => None,
            },
            font,
            *probe,
            caps_text@,
            caps@,
            zellij,
        ),
{
    let ghost ev = env_view(env@);
    let mut out = String::from_str("ncoxide terminal graphics probe\n");
    let mut i: usize = 0;
    while i < env.len()
        invariant
            ev == env_view(env@),
            i <= env@.len(),
            out@ == "ncoxide terminal graphics probe\n"@ + var_lines(ev.take(i as int)),
        decreases env@.len() - i,
    {
        let line = var_text(env[i].0.as_str(), &env[i].1);
        out.append(line.as_str());
        proof {
            assert(ev.take(i + 1).drop_last() =~= ev.take(i as int));
            assert(ev[i as int] == (env@[i as int].0@, opt_view(env@[i as int].1)));
        }
        i = i + 1;
    }
    proof {
        assert(ev.take(env@.len() as int) =~= ev);
    }
    let ghost s1 = out@;
    out.append("  [preview] images = ");
    out.append(debug_quote(images).as_str());
    out.append(", ");
    out.append(images_env());
    out.append(" ");
    match images_env_value {
        None => out.append("unset"),
        Some(v) => {
            out.append("= ");
            out.append(debug_quote(v).as_str());
        },
    }
    out.append("\n");
    let ghost ienv = match images_env_value {
        Some(v) => Some(v@),
        None => None,
    };
    proof {
        assert(out@ =~= s1 + "  [preview] images = "@ + spec_debug_quoted(images@)
            + ", "@ + "NCOXIDE_IMAGES"@ + " "@ + match ienv {
            None => "unset"@,
            Some(v) => "= "@ + spec_debug_quoted(v),
        } + "\n"@);
    }
    let ghost s2 = out@;
    if let Some(f) = font {
        out.append("  [preview] image_font_size = [");
        out.append(decimal_string(f[0] as u64).as_str());
        out.append(", ");
        out.append(decimal_string(f[1] as u64).as_str());
        out.append("]\n");
    }
    let ghost font_part = match font {
        Some(f) => "  [preview] image_font_size = ["@ + decimal(f[0] as nat) + ", "@ + decimal(
            f[1] as nat,
        ) + "]\n"@,
        None => Seq::<char>::empty(),
    };
    proof {
        assert(out@ =~= s2 + font_part);
    }
    let ghost s3 = out@;
    out.append("result: ");
    out.append(describe(probe).as_str());
    out.append("\n");
    out.append("  terminal (XTVERSION): ");
    match &probe.terminal {
        Some(t) => out.append(t.as_str()),
        None => out.append("no reply"),
    }
    out.append("\n");
    let ghost s4 = out@;
    proof {
        assert(s4 =~= s3 + "result: "@ + describe_text(*probe) + "\n"@ + "  terminal (XTVERSION): "@
            + match probe.terminal {
            Some(t) => t@,
            None => "no reply"@,
        } + "\n"@);
    }
    if let Some(p) = &probe.picker {
        out.append("  capabilities: ");
        out.append(caps_text);
        out.append("\n");
        let notes = report_notes(p.protocol, caps, zellij);
        let ghost nv = notes@.map_values(|s: String| s@);
        let ghost start = out@;
        let mut j: usize = 0;
        while j < notes.len()
            invariant
                nv == notes@.map_values(|s: String| s@),
                j <= notes@.len(),
                out@ == start + lines_of(nv.take(j as int)),
            decreases notes@.len() - j,
        {
            out.append(notes[j].as_str());
            out.append("\n");
            proof {
                assert(nv.take(j + 1).drop_last() =~= nv.take(j as int));
                assert(out@ =~= start + lines_of(nv.take(j + 1)));
            }
            j = j + 1;
        }
        proof {
            assert(nv.take(notes@.len() as int) =~= nv);
            assert(out@ =~= s4 + "  capabilities: "@ + caps_text@ + "\n"@ + lines_of(
                notes_of(p.protocol, caps@, zellij),
            ));
        }
    }
    proof {
        reveal_strlit("NCOXIDE_IMAGES");
        assert(out@ =~= report_of(
            ev,
            images@,
            match images_env_value {
                Some(v) => Some(v@),
                None => None,
            },
            font,
            *probe,
            caps_text@,
            caps@,
            zellij,
        ));
    }
    out
}

} // verus!
