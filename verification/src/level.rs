//! Severity levels, with the color and the label that each one is shown with.

use vstd::prelude::*;

verus! {

/// The severity of a record, most severe first.
#[derive(Clone, Copy, PartialEq, Eq, Structural, Debug)]
pub enum Level {
    Error,
    Warn,
    Info,
    Debug,
    Trace,
}

impl Level {
    /// How verbose a level is: 1 for `Error`, up to 5 for `Trace`. A level is more
    /// severe than another exactly when it is less verbose.
    pub open spec fn verbosity(self) -> nat {
        match self {
            Level::Error => 1,
            Level::Warn => 2,
            Level::Info => 3,
            Level::Debug => 4,
            Level::Trace => 5,
        }
    }
}

/// The terminal color of each level: red, bright yellow, blue, green, gray.
pub open spec fn color_code(level: Level) -> u8 {
    match level {
        Level::Error => 31,
        Level::Warn => 93,
        Level::Info => 34,
        Level::Debug => 32,
        Level::Trace => 90,
    }
}

/// The name that each level is printed under.
pub open spec fn label(level: Level) -> Seq<char> {
    match level {
        Level::Error => "ERROR"@,
        Level::Warn => "WARN"@,
        Level::Info => "INFO"@,
        Level::Debug => "DEBUG"@,
        Level::Trace => "TRACE"@,
    }
}

/// Maps a level to its ANSI foreground color code.
pub fn level_to_color_code(level: Level) -> (code: u8)
    ensures
        code == color_code(level),
{
    match level {
        Level::Error => 31,
        Level::Warn => 93,
        Level::Info => 34,
        Level::Debug => 32,
        Level::Trace => 90,
    }
}

/// Calls `log::Level::as_str` on the facade's level of the same name.
///
/// Not proved: that the facade names its levels `ERROR`, `WARN`, `INFO`, `DEBUG` and
/// `TRACE`, which is what its table of level names holds at each level's index.
#[verifier::external_body]
pub(crate) fn level_name(level: Level) -> (name: &'static str)
    ensures
        name@ == label(level),
{
    let theirs = match level {
        Level::Error => log::Level::Error,
        Level::Warn => log::Level::Warn,
        Level::Info => log::Level::Info,
        Level::Debug => log::Level::Debug,
        Level::Trace => log::Level::Trace,
    };
    theirs.as_str()
}

/// No label is wider than five characters, and only `WARN` and `INFO` are narrower.
pub proof fn lemma_label_len(level: Level)
    ensures
        label(level).len() == (if level == Level::Warn || level == Level::Info {
            4nat
        } else {
            5nat
        }),
{
    reveal_strlit("ERROR");
    reveal_strlit("WARN");
    reveal_strlit("INFO");
    reveal_strlit("DEBUG");
    reveal_strlit("TRACE");
}

} // verus!
