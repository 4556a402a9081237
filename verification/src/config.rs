//! Configuration resolution: raw optional CLI text in, one validated
//! configuration value out. Parsing, defaults and the begin/end check
//! happen here and nowhere else; `spec_resolution` is the whole story.

use vstd::prelude::*;

use crate::digits::{parse_i64, parse_u64, spec_parse_i64, spec_parse_u64};
use crate::timefmt::now_epoch_seconds;

verus! {

/// Default number of lines per rotation file.
pub const DEFAULT_LINES: u64 = 100;

/// Default number of rotations beyond the base file.
pub const DEFAULT_ROTATIONS: u64 = 0;

/// Default maximum gap between entries: five minutes in milliseconds.
pub const DEFAULT_MAXGAP_MS: u64 = 300000;

/// Default span of the time window: ten days in seconds.
pub const DEFAULT_SPAN_S: i64 = 864000;

/// The validated configuration of one run.
#[derive(Debug)]
pub struct Config {
    /// The directory the rotation files are written into.
    pub out_dir: String,
    /// Most entries one rotation file may hold.
    pub lines: u64,
    /// Number of rotated files beyond the base file.
    pub rotations: u64,
    /// Window start, in UTC seconds since the Unix epoch.
    pub begin_s: i64,
    /// Window end, in UTC seconds since the Unix epoch.
    pub end_s: i64,
    /// Largest gap between consecutive entries, in milliseconds.
    pub maxgap_ms: u64,
}

/// A fault in the raw CLI input: a field that does not parse, or a
/// window that ends before it begins.
#[derive(Clone, Copy, Debug, PartialEq, Eq, Structural)]
pub enum ConfigError {
    BadLines,
    BadRotations,
    BadBegin,
    BadEnd,
    BadMaxgap,
    BeginAfterEnd,
}

impl ConfigError {
    /// A human-readable description naming the offending option.
    pub fn message(&self) -> (r: &'static str)
        ensures
            r@ == spec_message(*self),
    {
        match self {
            ConfigError::BadLines => "Lines requires a number as argument",
            ConfigError::BadRotations => "Rotations requires a number as argument",
            ConfigError::BadBegin => "Begin requires seconds as argument",
            ConfigError::BadEnd => "End requires seconds as argument",
            ConfigError::BadMaxgap => "Maximum gap must be a positive value in milliseconds",
            ConfigError::BeginAfterEnd => "Begin cannot be after end.",
        }
    }
}

/// The description `message` returns for each fault.
pub open spec fn spec_message(e: ConfigError) -> Seq<char> {
    match e {
        ConfigError::BadLines => "Lines requires a number as argument"@,
        ConfigError::BadRotations => "Rotations requires a number as argument"@,
        ConfigError::BadBegin => "Begin requires seconds as argument"@,
        ConfigError::BadEnd => "End requires seconds as argument"@,
        ConfigError::BadMaxgap => "Maximum gap must be a positive value in milliseconds"@,
        ConfigError::BeginAfterEnd => "Begin cannot be after end."@,
    }
}

/// The view of an optional raw field.
pub open spec fn opt_view(o: Option<&str>) -> Option<Seq<char>> {
    match o {
        Some(s) => Some(s@),
        None => None,
    }
}

/// The window start when none is given: ten days before the end,
/// held at the lowest representable second where that would leave the
/// range of `i64`.
pub open spec fn spec_default_begin(end_s: i64) -> i64 {
    if end_s as int - DEFAULT_SPAN_S as int >= i64::MIN as int {
        (end_s as int - DEFAULT_SPAN_S as int) as i64
    } else {
        i64::MIN
    }
}

/// What resolution yields on the raw fields, with `now_s` standing in
/// for the current time: each absent field takes its default, each
/// present one must parse, and the window must not end before it
/// begins. Fields are examined in the order the faults are reported:
/// lines, rotations, end, begin, the begin/end check, then the gap.
/// On success the resolved values are, in order: lines, rotations,
/// window begin, window end, maximum gap.
pub open spec fn spec_resolution(
    lines: Option<Seq<char>>,
    rotations: Option<Seq<char>>,
    begin: Option<Seq<char>>,
    end: Option<Seq<char>>,
    maxgap: Option<Seq<char>>,
    now_s: i64,
) -> Result<(u64, u64, i64, i64, u64), ConfigError> {
    let lines_v = match lines {
        None => Some(DEFAULT_LINES),
        Some(s) => spec_parse_u64(s),
    };
    let rotations_v = match rotations {
        None => Some(DEFAULT_ROTATIONS),
        Some(s) => spec_parse_u64(s),
    };
    let end_v = match end {
        None => Some(now_s),
        Some(s) => spec_parse_i64(s),
    };
    if lines_v is None {
        Err(ConfigError::BadLines)
    } else if rotations_v is None {
        Err(ConfigError::BadRotations)
    } else if end_v is None {
        Err(ConfigError::BadEnd)
    } else {
        let e = end_v->Some_0;
        let begin_v = match begin {
            None => Some(spec_default_begin(e)),
            Some(s) => spec_parse_i64(s),
        };
        if begin_v is None {
            Err(ConfigError::BadBegin)
        } else if begin_v->Some_0 > e {
            Err(ConfigError::BeginAfterEnd)
        } else {
            let maxgap_v = match maxgap {
                None => Some(DEFAULT_MAXGAP_MS),
                Some(s) => spec_parse_u64(s),
            };
            if maxgap_v is None {
                Err(ConfigError::BadMaxgap)
            } else {
                Ok((lines_v->Some_0, rotations_v->Some_0, begin_v->Some_0, e, maxgap_v->Some_0))
            }
        }
    }
}

/// Whether `r` is the outcome `spec_resolution` prescribes for these
/// raw fields and this reading of the clock.
pub open spec fn resolution_matches(
    r: Result<Config, ConfigError>,
    out_dir: Seq<char>,
    lines: Option<Seq<char>>,
    rotations: Option<Seq<char>>,
    begin: Option<Seq<char>>,
    end: Option<Seq<char>>,
    maxgap: Option<Seq<char>>,
    now_s: i64,
) -> bool {
    match r {
        Ok(cfg) => {
            &&& spec_resolution(lines, rotations, begin, end, maxgap, now_s) matches Ok(f)
                && cfg.lines == f.0 && cfg.rotations == f.1 && cfg.begin_s == f.2 && cfg.end_s
                == f.3 && cfg.maxgap_ms == f.4
            &&& cfg.out_dir@ == out_dir
        },
        Err(e) => spec_resolution(lines, rotations, begin, end, maxgap, now_s) == Err::<
            (u64, u64, i64, i64, u64),
            ConfigError,
        >(e),
    }
}

/// Resolves the configuration from the raw CLI fields, with `now_s`
/// standing in for the current time: exactly what `spec_resolution`
/// prescribes, and on success a window that does not end before it
/// begins.
pub fn resolve_config(
    out_dir: &str,
    lines: Option<&str>,
    rotations: Option<&str>,
    begin: Option<&str>,
    end: Option<&str>,
    maxgap: Option<&str>,
    now_s: i64,
) -> (r: Result<Config, ConfigError>)
    ensures
        resolution_matches(
            r,
            out_dir@,
            opt_view(lines),
            opt_view(rotations),
            opt_view(begin),
            opt_view(end),
            opt_view(maxgap),
            now_s,
        ),
        r matches Ok(cfg) ==> cfg.begin_s <= cfg.end_s,
{
    let lines_v = match lines {
        None => DEFAULT_LINES,
        Some(s) => match parse_u64(s) {
            Some(v) => v,
            None => {
                return Err(ConfigError::BadLines);
            },
        },
    };
    let rotations_v = match rotations {
        None => DEFAULT_ROTATIONS,
        Some(s) => match parse_u64(s) {
            Some(v) => v,
            None => {
                return Err(ConfigError::BadRotations);
            },
        },
    };
    let end_v = match end {
        None => now_s,
        Some(s) => match parse_i64(s) {
            Some(v) => v,
            None => {
                return Err(ConfigError::BadEnd);
            },
        },
    };
    let begin_v = match begin {
        None => {
            if end_v >= i64::MIN + DEFAULT_SPAN_S {
                end_v - DEFAULT_SPAN_S
            } else {
                i64::MIN
            }
        },
        Some(s) => match parse_i64(s) {
            Some(v) => v,
            None => {
                return Err(ConfigError::BadBegin);
            },
        },
    };
    if begin_v > end_v {
        return Err(ConfigError::BeginAfterEnd);
    }
    let maxgap_v = match maxgap {
        None => DEFAULT_MAXGAP_MS,
        Some(s) => match parse_u64(s) {
            Some(v) => v,
            None => {
                return Err(ConfigError::BadMaxgap);
            },
        },
    };
    Ok(
        Config {
            out_dir: out_dir.to_owned(),
            lines: lines_v,
            rotations: rotations_v,
            begin_s: begin_v,
            end_s: end_v,
            maxgap_ms: maxgap_v,
        },
    )
}

/// Resolves the configuration with the window end defaulting to the
/// clock's current reading. Whatever the clock reads, the outcome is
/// what `spec_resolution` prescribes for that reading; with an
/// explicit end the clock plays no part in it.
pub fn resolve_config_now(
    out_dir: &str,
    lines: Option<&str>,
    rotations: Option<&str>,
    begin: Option<&str>,
    end: Option<&str>,
    maxgap: Option<&str>,
) -> (r: Result<Config, ConfigError>)
    ensures
        exists|now_s: i64|
            resolution_matches(
                r,
                out_dir@,
                opt_view(lines),
                opt_view(rotations),
                opt_view(begin),
                opt_view(end),
                opt_view(maxgap),
                now_s,
            ),
        end is Some ==> forall|now_s: i64|
            resolution_matches(
                r,
                out_dir@,
                opt_view(lines),
                opt_view(rotations),
                opt_view(begin),
                opt_view(end),
                opt_view(maxgap),
                now_s,
            ),
        r matches Ok(cfg) ==> cfg.begin_s <= cfg.end_s,
{
    let now_s = now_epoch_seconds();
    let r = resolve_config(out_dir, lines, rotations, begin, end, maxgap, now_s);
    proof {
        assert(resolution_matches(
            r,
            out_dir@,
            opt_view(lines),
            opt_view(rotations),
            opt_view(begin),
            opt_view(end),
            opt_view(maxgap),
            now_s,
        ));
    }
    r
}

} // verus!
