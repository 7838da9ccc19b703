//! The logging bridge's data: leveled records tagged with the calling script
//! module, and the host's log-level filter.
//!
//! The bridge's transport is an external collaborator; what is decided here
//! is the record each bridge call produces — in particular how the caller
//! tag is carried — and which levels the host's filter lets through.

use vstd::prelude::*;

verus! {

/// The five levels a script can log at.
#[derive(Clone, Copy, Debug, PartialEq, Eq, Structural)]
pub enum LogLevel {
    Error,
    Warn,
    Info,
    Debug,
    Trace,
}

/// One record a logging-bridge call produces, handed to the transport as is.
/// `caller` is the calling script module's name, or `None` when the call did
/// not come from any script frame.
#[derive(Clone, Debug, PartialEq)]
pub struct LogRecord {
    pub level: LogLevel,
    pub text: String,
    pub caller: Option<String>,
}

/// The record one bridge call at `level` with `text` produces when the
/// caller was identified as `caller`.
pub open spec fn record_of(level: LogLevel, text: String, caller: Option<String>) -> LogRecord {
    LogRecord { level, text, caller }
}

/// The caller tag a record carries, as a plain value.
pub open spec fn caller_tag(r: LogRecord) -> Option<Seq<char>> {
    match r.caller {
        Some(m) => Some(m@),
        None => None,
    }
}

/// Builds the record for one bridge call. A call whose caller cannot be
/// determined yields a record with the caller absent rather than failing:
/// record construction is total.
pub fn make_log_record(level: LogLevel, text: String, caller: Option<String>) -> (r: LogRecord)
    ensures
        r == record_of(level, text, caller),
{
    LogRecord { level, text, caller }
}

/// Law: records carry their callers' identities independently — two bridge
/// calls from two distinct script modules produce records with their two
/// distinct tags, and a call from outside any script frame produces a record
/// with no tag at all.
pub proof fn lemma_caller_tagging(
    l1: LogLevel,
    t1: String,
    m1: String,
    l2: LogLevel,
    t2: String,
    m2: String,
)
    requires
        m1@ != m2@,
    ensures
        caller_tag(record_of(l1, t1, Some(m1))) == Some(m1@),
        caller_tag(record_of(l2, t2, Some(m2))) == Some(m2@),
        caller_tag(record_of(l1, t1, Some(m1))) != caller_tag(record_of(l2, t2, Some(m2))),
        caller_tag(record_of(l1, t1, None)) is None,
{
}

/// The host's level filter: `Off` silences everything; otherwise records up
/// to the named verbosity pass.
#[derive(Clone, Copy, Debug, PartialEq, Eq, Structural)]
pub enum FilterChoice {
    Off,
    Error,
    Warn,
    Info,
    Debug,
    Trace,
}

/// Verbosity rank of a record's level: the higher, the chattier.
pub open spec fn level_rank(l: LogLevel) -> int {
    match l {
        LogLevel::Error => 1,
        LogLevel::Warn => 2,
        LogLevel::Info => 3,
        LogLevel::Debug => 4,
        LogLevel::Trace => 5,
    }
}

/// Verbosity rank a filter admits; `Off` admits none.
pub open spec fn filter_rank(f: FilterChoice) -> int {
    match f {
        FilterChoice::Off => 0,
        FilterChoice::Error => 1,
        FilterChoice::Warn => 2,
        FilterChoice::Info => 3,
        FilterChoice::Debug => 4,
        FilterChoice::Trace => 5,
    }
}

/// Whether a record at `l` is emitted under filter `f`.
pub open spec fn spec_enabled(f: FilterChoice, l: LogLevel) -> bool {
    level_rank(l) <= filter_rank(f)
}

pub fn enabled(f: FilterChoice, l: LogLevel) -> (r: bool)
    ensures
        r == spec_enabled(f, l),
{
    let fr: u8 = match f {
        FilterChoice::Off => 0,
        FilterChoice::Error => 1,
        FilterChoice::Warn => 2,
        FilterChoice::Info => 3,
        FilterChoice::Debug => 4,
        FilterChoice::Trace => 5,
    };
    let lr: u8 = match l {
        LogLevel::Error => 1,
        LogLevel::Warn => 2,
        LogLevel::Info => 3,
        LogLevel::Debug => 4,
        LogLevel::Trace => 5,
    };
    lr <= fr
}

/// ASCII case folding of one character's code point.
pub open spec fn fold_code(c: char) -> int {
    if 65 <= c as int && c as int <= 90 {
        c as int + 32
    } else {
        c as int
    }
}

/// Case-insensitive (ASCII) equality of two texts.
pub open spec fn ci_equal(s: Seq<char>, t: Seq<char>) -> bool {
    s.len() == t.len() && (forall|i: int| 0 <= i < s.len() ==> fold_code(s[i]) == fold_code(t[i]))
}

fn fold_char_code(c: char) -> (r: u32)
    ensures
        r as int == fold_code(c),
{
    let u = c as u32;
    if 65 <= u && u <= 90 {
        u + 32
    } else {
        u
    }
}

fn ci_eq(a: &str, b: &str) -> (r: bool)
    ensures
        r == ci_equal(a@, b@),
{
    let n = a.unicode_len();
    if n != b.unicode_len() {
        return false;
    }
    let mut i: usize = 0;
    while i < n
        invariant
            n == a@.len(),
            n == b@.len(),
            0 <= i <= n,
            forall|j: int| 0 <= j < i ==> fold_code(a@[j]) == fold_code(b@[j]),
        decreases n - i,
    {
        let ca = a.get_char(i);
        let cb = b.get_char(i);
        if fold_char_code(ca) != fold_char_code(cb) {
            return false;
        }
        i = i + 1;
    }
    true
}

/// A decimal digit character.
pub open spec fn is_ascii_digit(c: char) -> bool {
    48 <= c as int && c as int <= 57
}

pub open spec fn all_digits(s: Seq<char>) -> bool {
    forall|i: int| 0 <= i < s.len() ==> is_ascii_digit(#[trigger] s[i])
}

/// The decimal value of a digit string.
pub open spec fn digits_value(s: Seq<char>) -> int
    decreases s.len(),
{
    if s.len() == 0 {
        0
    } else {
        digits_value(s.drop_last()) * 10 + (s.last() as int - 48)
    }
}

/// The filter a numeric level form denotes, from silence upward.
pub open spec fn filter_of_number(v: int) -> Option<FilterChoice> {
    if v == 0 {
        Some(FilterChoice::Off)
    } else if v == 1 {
        Some(FilterChoice::Error)
    } else if v == 2 {
        Some(FilterChoice::Warn)
    } else if v == 3 {
        Some(FilterChoice::Info)
    } else if v == 4 {
        Some(FilterChoice::Debug)
    } else if v == 5 {
        Some(FilterChoice::Trace)
    } else {
        None
    }
}

/// The filter a level name denotes: the empty text is the error level, a
/// digit string from 0 to 5 counts verbosity up from silence, the five level
/// names and `off` are taken ASCII case-insensitively, and any other text is
/// unparseable and falls back to the informational default.
pub open spec fn filter_of_name(s: Seq<char>) -> FilterChoice {
    if s.len() == 0 {
        FilterChoice::Error
    } else if all_digits(s) {
        match filter_of_number(digits_value(s)) {
            Some(f) => f,
            None => FilterChoice::Info,
        }
    } else if ci_equal(s, "off"@) {
        FilterChoice::Off
    } else if ci_equal(s, "error"@) {
        FilterChoice::Error
    } else if ci_equal(s, "warn"@) {
        FilterChoice::Warn
    } else if ci_equal(s, "info"@) {
        FilterChoice::Info
    } else if ci_equal(s, "debug"@) {
        FilterChoice::Debug
    } else if ci_equal(s, "trace"@) {
        FilterChoice::Trace
    } else {
        FilterChoice::Info
    }
}

/// Parses the log-level name read at startup. Unparseable names fall back to
/// the informational default; absence is the caller's fallback to the same.
pub fn parse_level(name: &str) -> (f: FilterChoice)
    ensures
        f == filter_of_name(name@),
{
    let n = name.unicode_len();
    if n == 0 {
        return FilterChoice::Error;
    }
    let mut i: usize = 0;
    let mut digits = true;
    let mut acc: u32 = 0;
    while i < n && digits
        invariant
            0 <= i <= n,
            n == name@.len(),
            digits ==> all_digits(name@.take(i as int)),
            digits && digits_value(name@.take(i as int)) <= 5 ==> acc == digits_value(
                name@.take(i as int),
            ),
            digits && digits_value(name@.take(i as int)) > 5 ==> acc > 5,
            !digits ==> !all_digits(name@),
            acc <= 59,
        decreases n - i,
    {
        let c = name.get_char(i);
        let u = c as u32;
        if 48 <= u && u <= 57 {
            proof {
                assert(name@.take(i + 1 as int).drop_last() =~= name@.take(i as int));
                assert(name@.take(i + 1 as int).last() == name@[i as int]);
                assert(forall|j: int|
                    0 <= j < i + 1 ==> is_ascii_digit(#[trigger] name@.take(i + 1 as int)[j]));
            }
            if acc <= 5 {
                acc = acc * 10 + (u - 48);
            }
        } else {
            digits = false;
            assert(!is_ascii_digit(name@[i as int]));
        }
        i = i + 1;
    }
    if digits {
        proof {
            assert(name@.take(n as int) =~= name@);
        }
        return if acc == 0 {
            FilterChoice::Off
        } else if acc == 1 {
            FilterChoice::Error
        } else if acc == 2 {
            FilterChoice::Warn
        } else if acc == 3 {
            FilterChoice::Info
        } else if acc == 4 {
            FilterChoice::Debug
        } else if acc == 5 {
            FilterChoice::Trace
        } else {
            FilterChoice::Info
        };
    }
    if ci_eq(name, "off") {
        FilterChoice::Off
    } else if ci_eq(name, "error") {
        FilterChoice::Error
    } else if ci_eq(name, "warn") {
        FilterChoice::Warn
    } else if ci_eq(name, "info") {
        FilterChoice::Info
    } else if ci_eq(name, "debug") {
        FilterChoice::Debug
    } else if ci_eq(name, "trace") {
        FilterChoice::Trace
    } else {
        FilterChoice::Info
    }
}

} // verus!
