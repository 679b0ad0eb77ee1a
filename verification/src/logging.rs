//! Log level rules: the file log level kept as a number, and the console
//! filter directive.

use crate::mistral;
use crate::text;
use vstd::prelude::*;

verus! {

broadcast use vstd::string::group_string_axioms;

/// Most verbose level a log target lets through.
#[derive(Debug, Clone, Copy, PartialEq, Eq, Structural)]
pub enum LevelFilter {
    Off,
    Error,
    Warn,
    Info,
    Debug,
    Trace,
}

/// Level of one log record.
#[derive(Debug, Clone, Copy, PartialEq, Eq, Structural)]
pub enum Level {
    Error,
    Warn,
    Info,
    Debug,
    Trace,
}

/// The number a filter is stored as: `Off` is 0, each more verbose filter one more.
pub open spec fn filter_code(f: LevelFilter) -> u8 {
    match f {
        LevelFilter::Off => 0,
        LevelFilter::Error => 1,
        LevelFilter::Warn => 2,
        LevelFilter::Info => 3,
        LevelFilter::Debug => 4,
        LevelFilter::Trace => 5,
    }
}

/// The verbosity of a record's level: `Error` is 1, `Trace` 5.
pub open spec fn level_code(l: Level) -> u8 {
    match l {
        Level::Error => 1,
        Level::Warn => 2,
        Level::Info => 3,
        Level::Debug => 4,
        Level::Trace => 5,
    }
}

/// The filter a stored number stands for; numbers above 5 mean `Trace`.
pub open spec fn filter_for_code(value: u8) -> LevelFilter {
    if value == 0 {
        LevelFilter::Off
    } else if value == 1 {
        LevelFilter::Error
    } else if value == 2 {
        LevelFilter::Warn
    } else if value == 3 {
        LevelFilter::Info
    } else if value == 4 {
        LevelFilter::Debug
    } else {
        LevelFilter::Trace
    }
}

/// Reads a stored file log level.
pub fn level_filter_from_u8(value: u8) -> (f: LevelFilter)
    ensures
        f == filter_for_code(value),
{
    match value {
        0 => LevelFilter::Off,
        1 => LevelFilter::Error,
        2 => LevelFilter::Warn,
        3 => LevelFilter::Info,
        4 => LevelFilter::Debug,
        5 => LevelFilter::Trace,
        _ => LevelFilter::Trace,
    }
}

/// The number a filter is stored as.
pub fn level_filter_code(f: LevelFilter) -> (c: u8)
    ensures
        c == filter_code(f),
{
    match f {
        LevelFilter::Off => 0,
        LevelFilter::Error => 1,
        LevelFilter::Warn => 2,
        LevelFilter::Info => 3,
        LevelFilter::Debug => 4,
        LevelFilter::Trace => 5,
    }
}

/// A stored filter reads back as itself.
pub proof fn filter_code_round_trip(f: LevelFilter)
    ensures
        filter_for_code(filter_code(f)) == f,
{
}

/// The file log level: everything in debug mode, else up to debug records.
pub fn file_log_level(debug: bool) -> (f: LevelFilter)
    ensures
        f == (if debug { LevelFilter::Trace } else { LevelFilter::Debug }),
{
    if debug {
        LevelFilter::Trace
    } else {
        LevelFilter::Debug
    }
}

/// Whether the filter stored as `stored` lets a record of `level` through.
pub open spec fn file_allows(level: Level, stored: u8) -> bool {
    level_code(level) <= filter_code(filter_for_code(stored))
}

/// A record passes exactly the filters at least as verbose as its level:
/// nothing passes `Off`, an error passes every other filter, a filter that
/// lets a level through lets every less verbose level through (in the order
/// error, warn, info, debug, trace), a more verbose filter lets through all
/// that a less verbose one does, and the filter of each level stops the next
/// more verbose level.
pub proof fn file_filter_order(level: Level, c1: u8, c2: u8)
    ensures
        !file_allows(level, 0),
        c1 >= 1 ==> file_allows(Level::Error, c1),
        c1 <= c2 && file_allows(level, c1) ==> file_allows(level, c2),
        file_allows(Level::Trace, c1) ==> file_allows(Level::Debug, c1),
        file_allows(Level::Debug, c1) ==> file_allows(Level::Info, c1),
        file_allows(Level::Info, c1) ==> file_allows(Level::Warn, c1),
        file_allows(Level::Warn, c1) ==> file_allows(Level::Error, c1),
        !file_allows(Level::Warn, 1) && !file_allows(Level::Info, 2),
        !file_allows(Level::Debug, 3) && !file_allows(Level::Trace, 4),
        c1 >= 5 ==> file_allows(level, c1),
{
}

/// Whether the log file takes a record of `level`, given the stored file
/// log level number.
pub fn file_log_allows(level: Level, stored: u8) -> (b: bool)
    ensures
        b == file_allows(level, stored),
        stored == 0 ==> !b,
        stored >= 1 && level == Level::Error ==> b,
        stored >= 5 ==> b,
        stored == 4 ==> (b <==> level != Level::Trace),
{
    let l: u8 = match level {
        Level::Error => 1,
        Level::Warn => 2,
        Level::Info => 3,
        Level::Debug => 4,
        Level::Trace => 5,
    };
    l <= level_filter_code(level_filter_from_u8(stored))
}

/// Whether `env_filter` accepts `spec` as a filter directive string.
pub uninterp spec fn filter_spec_parses(spec: Seq<char>) -> bool;

/// `env_filter::Builder::try_parse` on a fresh builder: whether the
/// directive string parses. Its result depends on the string alone and is
/// named by `filter_spec_parses`.
#[verifier::external_body]
fn spec_parses(spec: &str) -> (b: bool)
    ensures
        b == filter_spec_parses(spec@),
{
    env_filter::Builder::new().try_parse(spec).is_ok()
}

/// Where the console filter comes from: a directive string to parse, or a
/// single level for every target.
#[derive(Debug, PartialEq, Eq)]
pub enum ConsoleSource {
    Spec(String),
    Level(LevelFilter),
}

/// Whether `RUST_LOG`'s value `v` is used as the console directive: set, not
/// blank, and accepted by `env_filter`.
pub open spec fn usable_directive(rust_log: Option<Seq<char>>) -> bool {
    rust_log matches Some(v) && text::trim(v).len() > 0 && filter_spec_parses(v)
}

/// The console filter's source, given `RUST_LOG`'s value: the value itself
/// when it is set, not blank and parses; info level for every target when it
/// is unset, blank or invalid.
pub fn console_source(rust_log: Option<&str>) -> (s: ConsoleSource)
    ensures
        usable_directive(mistral::opt_view(rust_log)) ==> (rust_log matches Some(v) && s matches ConsoleSource::Spec(x) && x@ == v@),
        !usable_directive(mistral::opt_view(rust_log)) ==> s == ConsoleSource::Level(LevelFilter::Info),
{
    match rust_log {
        Some(v) => if !text::is_blank(v) && spec_parses(v) {
            ConsoleSource::Spec(v.to_string())
        } else {
            ConsoleSource::Level(console_default_level())
        },
        None => ConsoleSource::Level(console_default_level()),
    }
}

/// The level the console shows when no usable directive is given.
pub fn console_default_level() -> (f: LevelFilter)
    ensures
        f == LevelFilter::Info,
{
    LevelFilter::Info
}

} // verus!
