//! The layout of one log line: color on, the bracketed label, the message, a
//! newline, color off.

use vstd::prelude::*;

use crate::level::{level_name, level_to_color_code, Level};

verus! {

/// The character of a decimal digit.
pub open spec fn digit(d: nat) -> char
    recommends
        d < 10,
{
    ((48 + d) as u8) as char
}

/// A number in decimal, without sign or leading zeros.
pub open spec fn decimal(n: nat) -> Seq<char>
    decreases n,
{
    if n < 10 {
        seq![digit(n)]
    } else {
        decimal(n / 10).push(digit(n % 10))
    }
}

/// `count` spaces.
pub open spec fn spaces(count: nat) -> Seq<char> {
    Seq::new(count, |i: int| ' ')
}

/// `text` moved to the right edge of a field of `width` characters: spaces fill the
/// field on the left, and a text that is wider than the field stays as it is.
pub open spec fn right_aligned(text: Seq<char>, width: nat) -> Seq<char> {
    if text.len() >= width {
        text
    } else {
        spaces((width - text.len()) as nat) + text
    }
}

/// The line that a record of this level and message is shown as.
pub open spec fn rendered(level: Level, message: Seq<char>) -> Seq<char> {
    "\x1b["@ + decimal(crate::level::color_code(level) as nat) + "m["@ + right_aligned(
        crate::level::label(level),
        5,
    ) + "] "@ + message + "\n"@ + "\x1b[0m"@
}

/// Everything of a line that stands before the message, written out for each level.
pub open spec fn line_head(level: Level) -> Seq<char> {
    match level {
        Level::Error => "\x1b[31m[ERROR] "@,
        Level::Warn => "\x1b[93m[ WARN] "@,
        Level::Info => "\x1b[34m[ INFO] "@,
        Level::Debug => "\x1b[32m[DEBUG] "@,
        Level::Trace => "\x1b[90m[TRACE] "@,
    }
}

fn digit_str(d: u8) -> (s: &'static str)
    requires
        d < 10,
    ensures
        s@ == seq![digit(d as nat)],
{
    proof {
        reveal_strlit("0");
        reveal_strlit("1");
        reveal_strlit("2");
        reveal_strlit("3");
        reveal_strlit("4");
        reveal_strlit("5");
        reveal_strlit("6");
        reveal_strlit("7");
        reveal_strlit("8");
        reveal_strlit("9");
    }
    let s = match d {
        0 => "0",
        1 => "1",
        2 => "2",
        3 => "3",
        4 => "4",
        5 => "5",
        6 => "6",
        7 => "7",
        8 => "8",
        _ => "9",
    };
    assert(s@ =~= seq![digit(d as nat)]);
    s
}

/// Appends `n` in decimal to `out`.
pub fn push_decimal(out: &mut String, n: u8)
    ensures
        final(out)@ == old(out)@ + decimal(n as nat),
{
    reveal_with_fuel(decimal, 3);
    if n >= 100 {
        out.append(digit_str(n / 100));
    }
    if n >= 10 {
        out.append(digit_str((n / 10) % 10));
    }
    out.append(digit_str(n % 10));
    assert(out@ =~= old(out)@ + decimal(n as nat));
}

/// Appends `text` to `out`, right-aligned in a field of `width` characters.
pub fn push_right_aligned(out: &mut String, text: &str, width: usize)
    ensures
        final(out)@ == old(out)@ + right_aligned(text@, width as nat),
{
    let len = text.unicode_len();
    let mut filled: usize = len;
    while filled < width
        invariant
            len == text@.len(),
            len <= filled,
            filled <= width || filled == len,
            out@ == old(out)@ + spaces((filled - len) as nat),
        decreases width - filled,
    {
        out.append(" ");
        filled = filled + 1;
        proof {
            reveal_strlit(" ");
            assert(out@ =~= old(out)@ + spaces((filled - len) as nat));
        }
    }
    out.append(text);
    assert(out@ =~= old(out)@ + right_aligned(text@, width as nat));
}

/// Lays a record out as one line: the escape that sets the level's color, the level's
/// label right-aligned in five characters between brackets, a space, the message, a
/// newline, and the escape that resets the color.
pub fn render(level: Level, message: &str) -> (line: String)
    ensures
        line@ == rendered(level, message@),
{
    let mut line = String::new();
    line.append("\x1b[");
    push_decimal(&mut line, level_to_color_code(level));
    line.append("m[");
    push_right_aligned(&mut line, level_name(level), 5);
    line.append("] ");
    line.append(message);
    line.append("\n");
    line.append("\x1b[0m");
    assert(line@ =~= rendered(level, message@));
    line
}

/// The wire format, level by level: a line is its level's head, the message, a
/// newline and the reset escape, whatever the message is.
pub proof fn lemma_wire_format(level: Level, message: Seq<char>)
    ensures
        rendered(level, message) == line_head(level) + message + "\n\x1b[0m"@,
{
    reveal_with_fuel(decimal, 3);
    reveal_strlit("\x1b[");
    reveal_strlit("m[");
    reveal_strlit("] ");
    reveal_strlit("\n");
    reveal_strlit("\x1b[0m");
    reveal_strlit("\n\x1b[0m");
    reveal_strlit("ERROR");
    reveal_strlit("WARN");
    reveal_strlit("INFO");
    reveal_strlit("DEBUG");
    reveal_strlit("TRACE");
    reveal_strlit("\x1b[31m[ERROR] ");
    reveal_strlit("\x1b[93m[ WARN] ");
    reveal_strlit("\x1b[34m[ INFO] ");
    reveal_strlit("\x1b[32m[DEBUG] ");
    reveal_strlit("\x1b[90m[TRACE] ");
    assert(rendered(level, message) =~= line_head(level) + message + "\n\x1b[0m"@);
}

/// Color never leaks from one line into the next: every line opens with an escape
/// that sets the color, closes with the escape that resets it, and is eighteen
/// characters longer than its message.
pub proof fn lemma_line_is_bracketed(level: Level, message: Seq<char>)
    ensures
        "\x1b["@.is_prefix_of(rendered(level, message)),
        "\n\x1b[0m"@.is_suffix_of(rendered(level, message)),
        rendered(level, message).len() == message.len() + 18,
{
    lemma_wire_format(level, message);
    reveal_strlit("\x1b[");
    reveal_strlit("\n\x1b[0m");
    reveal_strlit("\x1b[31m[ERROR] ");
    reveal_strlit("\x1b[93m[ WARN] ");
    reveal_strlit("\x1b[34m[ INFO] ");
    reveal_strlit("\x1b[32m[DEBUG] ");
    reveal_strlit("\x1b[90m[TRACE] ");
    let line = rendered(level, message);
    assert(line.len() == message.len() + 18);
    assert(line.subrange(0, 2) =~= "\x1b["@);
    assert(line.subrange(line.len() - 5, line.len() as int) =~= "\n\x1b[0m"@);
}

/// A line is a function of the level and the message alone: records that agree in
/// both are laid out as the same line, character for character.
pub proof fn lemma_render_repeats(
    level: Level,
    message: Seq<char>,
    again_level: Level,
    again_message: Seq<char>,
)
    requires
        level == again_level,
        message == again_message,
    ensures
        rendered(level, message) == rendered(again_level, again_message),
        crate::sink::codes(rendered(level, message)) == crate::sink::codes(
            rendered(again_level, again_message),
        ),
{
}

} // verus!
