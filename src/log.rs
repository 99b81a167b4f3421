use vstd::prelude::*;

verus! {

/// The level of a record as the host's logging facade gives it.
#[derive(Debug, Clone, Copy, PartialEq, Eq, Structural)]
pub enum Level {
    Error,
    Warn,
    Info,
    Debug,
    Trace,
}

/// The severity a record carries on the wire. A lower code is more urgent.
#[derive(Debug, Clone, Copy, PartialEq, Eq, Structural)]
pub enum VioletLogSeverity {
    NoDefined,
    Severe,
    Error,
    Warning,
    Info,
    Verbose,
}

/// The integer code of a severity.
pub open spec fn ordinal(s: VioletLogSeverity) -> u8 {
    match s {
        VioletLogSeverity::NoDefined => 0,
        VioletLogSeverity::Severe => 1,
        VioletLogSeverity::Error => 2,
        VioletLogSeverity::Warning => 3,
        VioletLogSeverity::Info => 4,
        VioletLogSeverity::Verbose => 5,
    }
}

/// The severity of an integer code; a code without a severity is `NoDefined`.
pub open spec fn severity_of_code(c: u8) -> VioletLogSeverity {
    if c == 1 {
        VioletLogSeverity::Severe
    } else if c == 2 {
        VioletLogSeverity::Error
    } else if c == 3 {
        VioletLogSeverity::Warning
    } else if c == 4 {
        VioletLogSeverity::Info
    } else if c == 5 {
        VioletLogSeverity::Verbose
    } else {
        VioletLogSeverity::NoDefined
    }
}

/// The severity that a record of a native level is shipped with.
pub open spec fn severity_of_level(l: Level) -> VioletLogSeverity {
    match l {
        Level::Error => VioletLogSeverity::Error,
        Level::Warn => VioletLogSeverity::Warning,
        Level::Info => VioletLogSeverity::Info,
        Level::Debug => VioletLogSeverity::Verbose,
        Level::Trace => VioletLogSeverity::NoDefined,
    }
}

/// The wire code of a native level.
pub open spec fn level_code(l: Level) -> u8 {
    match l {
        Level::Error => 2,
        Level::Warn => 3,
        Level::Info => 4,
        Level::Debug => 5,
        Level::Trace => 0,
    }
}

/// The four-letter tag of a native level in the local echo of a record.
pub open spec fn level_tag(l: Level) -> Seq<char> {
    match l {
        Level::Error => "ERRO"@,
        Level::Warn => "WARN"@,
        Level::Info => "INFO"@,
        Level::Debug => "DEBU"@,
        Level::Trace => "TRAC"@,
    }
}

/// A record of severity `s` is dropped under the floor `min` when it is less
/// urgent, that is when its code is larger.
pub open spec fn is_suppressed(s: VioletLogSeverity, min: VioletLogSeverity) -> bool {
    ordinal(s) > ordinal(min)
}

impl From<u8> for VioletLogSeverity {
    fn from(el: u8) -> (r: Self) {
        match el {
            1 => VioletLogSeverity::Severe,
            2 => VioletLogSeverity::Error,
            3 => VioletLogSeverity::Warning,
            4 => VioletLogSeverity::Info,
            5 => VioletLogSeverity::Verbose,
            _ => VioletLogSeverity::NoDefined,
        }
    }
}

impl vstd::std_specs::convert::FromSpecImpl<u8> for VioletLogSeverity {
    open spec fn obeys_from_spec() -> bool {
        true
    }

    open spec fn from_spec(v: u8) -> Self {
        severity_of_code(v)
    }
}

impl From<&VioletLogSeverity> for u8 {
    fn from(val: &VioletLogSeverity) -> (r: Self) {
        match val {
            VioletLogSeverity::NoDefined => 0,
            VioletLogSeverity::Severe => 1,
            VioletLogSeverity::Error => 2,
            VioletLogSeverity::Warning => 3,
            VioletLogSeverity::Info => 4,
            VioletLogSeverity::Verbose => 5,
        }
    }
}

impl vstd::std_specs::convert::FromSpecImpl<&VioletLogSeverity> for u8 {
    open spec fn obeys_from_spec() -> bool {
        true
    }

    open spec fn from_spec(v: &VioletLogSeverity) -> Self {
        ordinal(*v)
    }
}

impl From<Level> for VioletLogSeverity {
    fn from(el: Level) -> (r: Self) {
        match el {
            Level::Error => VioletLogSeverity::Error,
            Level::Warn => VioletLogSeverity::Warning,
            Level::Info => VioletLogSeverity::Info,
            Level::Debug => VioletLogSeverity::Verbose,
            Level::Trace => VioletLogSeverity::NoDefined,
        }
    }
}

impl vstd::std_specs::convert::FromSpecImpl<Level> for VioletLogSeverity {
    open spec fn obeys_from_spec() -> bool {
        true
    }

    open spec fn from_spec(v: Level) -> Self {
        severity_of_level(v)
    }
}

/// The wire code of a native level.
pub fn convert_level_to_u8(level: &Level) -> (r: u8)
    ensures
        r == level_code(*level),
        r == ordinal(severity_of_level(*level)),
{
    match level {
        Level::Error => 2,
        Level::Warn => 3,
        Level::Info => 4,
        Level::Debug => 5,
        Level::Trace => 0,
    }
}

/// The four-letter tag of a native level.
pub fn convert_level_to_string(level: &Level) -> (r: String)
    ensures
        r@ == level_tag(*level),
{
    let matc = match level {
        Level::Error => "ERRO",
        Level::Warn => "WARN",
        Level::Info => "INFO",
        Level::Debug => "DEBU",
        Level::Trace => "TRAC",
    };
    String::from_str(matc)
}

/// Whether a record of native level `level` is dropped under the floor `min`.
pub fn suppressed(level: &Level, min: &VioletLogSeverity) -> (r: bool)
    ensures
        r == is_suppressed(severity_of_level(*level), *min),
{
    convert_level_to_u8(level) > u8::from(min)
}

/// Each native level has exactly one severity, and the wire code of a level
/// is the code of that severity.
pub proof fn native_level_mapping(l: Level)
    ensures
        ordinal(severity_of_level(l)) == level_code(l),
        severity_of_code(level_code(l)) == severity_of_level(l),
{
}

/// Decoding the code of a severity gives that severity back.
pub proof fn ordinal_round_trip(s: VioletLogSeverity)
    ensures
        severity_of_code(ordinal(s)) == s,
        ordinal(severity_of_code(ordinal(s))) == ordinal(s),
{
}

/// A code that no severity has decodes to `NoDefined`.
pub proof fn unknown_code_is_not_set(c: u8)
    requires
        c > 5,
    ensures
        severity_of_code(c) == VioletLogSeverity::NoDefined,
{
}

/// A record without a defined severity passes every floor.
pub proof fn not_set_never_suppressed(min: VioletLogSeverity)
    ensures
        !is_suppressed(VioletLogSeverity::NoDefined, min),
{
}

} // verus!
