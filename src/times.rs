use crate::error::{is_io_error, Error, IoFailure};
use chrono_english::DateError;
use vstd::prelude::*;

verus! {

#[verifier::external_type_specification]
#[verifier::external_body]
pub struct ExDateError(chrono_english::DateError);

/// A file timestamp: whole seconds since the Unix epoch and the nanoseconds past them.
#[derive(Debug, Clone, Copy, PartialEq, Eq, Structural)]
pub struct FileStamp {
    pub seconds: i64,
    pub nanos: u32,
}

/// The access and modification times to apply to every file of a run.
#[derive(Debug, Clone, Copy, PartialEq, Eq, Structural)]
pub struct TimestampPair {
    pub access: FileStamp,
    pub modification: FileStamp,
}

/// Where the times of a run come from.
#[derive(Debug, Clone)]
pub enum TimestampSource {
    Now,
    ExplicitDate(String),
    ReferenceFile(String),
}

/// Both times set to one instant.
pub open spec fn uniform(t: FileStamp) -> TimestampPair {
    TimestampPair { access: t, modification: t }
}

/// The pair that holds access time `a` and modification time `m`.
pub open spec fn pair_of(a: FileStamp, m: FileStamp) -> TimestampPair {
    TimestampPair { access: a, modification: m }
}

/// Relies on filetime::FileTime::now: the current system time, whose
/// nanoseconds are documented to stay below one billion.
#[verifier::external_body]
fn now_stamp() -> (r: FileStamp)
    ensures
        r.nanos < 1_000_000_000,
{
    let t = filetime::FileTime::now();
    FileStamp { seconds: t.unix_seconds(), nanos: t.nanoseconds() }
}

pub open spec fn is_ascii_digit(c: char) -> bool {
    '0' <= c <= '9'
}

/// The seven characters from position `i` on are all digits.
pub open spec fn long_digit_run(s: Seq<char>, i: int) -> bool {
    forall|k: int| i <= k < i + 7 ==> is_ascii_digit(#[trigger] s[k])
}

/// Text that the date parser reads without panicking:
/// - ASCII only, as the parser slices names by bytes;
/// - no run of more than six digits, so that every number it reads (a count
///   of days, weeks or years, a zone offset in hours and minutes) keeps its
///   arithmetic and the date inside their ranges;
/// - every '.' followed by a digit or ending the text, as the parser takes the
///   character after a '.' of a time as a fractional second's first digit.
pub open spec fn parsable_text(s: Seq<char>) -> bool {
    &&& forall|k: int| 0 <= k < s.len() ==> (#[trigger] s[k] as u32) < 128
    &&& forall|i: int| 0 <= i && i + 7 <= s.len() ==> !long_digit_run(s, i)
    &&& forall|k: int| 0 <= k && k + 1 < s.len() && #[trigger] s[k] == '.' ==> is_ascii_digit(s[k + 1])
}

/// The diagnostic of a date text refused before it reaches the parser.
pub open spec fn refusal_text() -> Seq<char> {
    "Refused: only ASCII text, numbers of at most six digits and a digit after each '.' are read"@
}

/// Relies on chrono_english::parse_date_string, in the UK dialect, relative to
/// the local time now (chrono::Local::now); an error carries the parser's
/// diagnostic. The parser panics on a date moved past chrono's range by a
/// count, on a zone offset past `u32`, on a fractional second that is not
/// digits, and on a name cut inside a character; the `requires` leaves these out.
#[verifier::external_body]
fn parse_english(date: &str) -> (r: Result<FileStamp, DateError>)
    requires
        parsable_text(date@),
{
    match chrono_english::parse_date_string(date, chrono::Local::now(), chrono_english::Dialect::Uk) {
        Ok(d) => Ok(FileStamp { seconds: d.timestamp(), nanos: d.timestamp_subsec_nanos() }),
        Err(e) => Err(e),
    }
}

/// Whether `date` is text that the date parser can be handed.
pub fn is_parsable(date: &str) -> (r: bool)
    ensures
        r == parsable_text(date@),
{
    let n = date.unicode_len();
    let mut run: usize = 0;
    let mut after_dot = false;
    let mut i: usize = 0;
    while i < n
        invariant
            n == date@.len(),
            i <= n,
            run <= 6,
            run <= i,
            forall|k: int| i - run <= k < i ==> is_ascii_digit(#[trigger] date@[k]),
            run < i ==> !is_ascii_digit(date@[i - run - 1]),
            after_dot == (i > 0 && date@[i - 1] == '.'),
            forall|k: int| 0 <= k < i ==> (#[trigger] date@[k] as u32) < 128,
            forall|w: int| 0 <= w && w + 7 <= i ==> !long_digit_run(date@, w),
            forall|k: int|
                0 <= k && k + 1 < i && #[trigger] date@[k] == '.' ==> is_ascii_digit(date@[k + 1]),
        decreases n - i,
    {
        let c = date.get_char(i);
        if (c as u32) >= 128 {
            return false;
        }
        let digit = '0' <= c && c <= '9';
        if after_dot && !digit {
            assert(date@[i - 1] == '.');
            return false;
        }
        if digit {
            if run == 6 {
                assert(long_digit_run(date@, i - 6));
                return false;
            }
            proof {
                if i >= 6 {
                    assert(!is_ascii_digit(date@[i - run - 1]));
                    assert(!long_digit_run(date@, i - 6));
                }
            }
            run = run + 1;
        } else {
            proof {
                if i >= 6 {
                    assert(!is_ascii_digit(date@[i as int]));
                    assert(!long_digit_run(date@, i - 6));
                }
            }
            run = 0;
        }
        after_dot = c == '.';
        i += 1;
    }
    true
}

/// Relies on the `Display` impl of chrono_english::DateError: the diagnostic
/// text. Each diagnostic of the parser is one of its fixed messages, or a
/// scanner error shown as "line N: ...", and all start with a lowercase letter.
#[verifier::external_body]
fn date_error_text(e: &DateError) -> (r: String)
    ensures
        r@.len() > 0,
        'a' <= r@[0] <= 'z',
{
    e.to_string()
}

/// The pair for one captured instant: both times equal it.
pub fn resolve_now(now: FileStamp) -> (r: TimestampPair)
    ensures
        r == uniform(now),
{
    TimestampPair { access: now, modification: now }
}

/// Captures the current instant once and uses it for both times.
pub fn current_pair() -> (r: TimestampPair)
    ensures
        r.access == r.modification,
        r.access.nanos < 1_000_000_000,
{
    resolve_now(now_stamp())
}

/// Parses a date in natural English (UK dialect, relative to now).
/// Text that the parser cannot be handed safely is refused as unparsable.
pub fn parse_date(date: &str) -> (r: Result<FileStamp, Error>)
    ensures
        r is Ok || r matches Err(Error::DateParseError(_)),
        (r matches Err(Error::DateParseError(m)) && m@ == refusal_text()) <==> !parsable_text(
            date@,
        ),
{
    proof {
        reveal_strlit(
            "Refused: only ASCII text, numbers of at most six digits and a digit after each '.' are read",
        );
    }
    if !is_parsable(date) {
        return Err(
            Error::DateParseError(
                "Refused: only ASCII text, numbers of at most six digits and a digit after each '.' are read".to_string(),
            ),
        );
    }
    match parse_english(date) {
        Ok(t) => Ok(t),
        Err(e) => Err(Error::DateParseError(date_error_text(&e))),
    }
}

/// The pair for a parsed date: both times equal the instant; a parse error passes through.
pub fn pair_from_date(parsed: Result<FileStamp, Error>) -> (r: Result<TimestampPair, Error>)
    ensures
        match parsed {
            Ok(t) => r == Ok::<TimestampPair, Error>(uniform(t)),
            Err(e) => r == Err::<TimestampPair, Error>(e),
        },
{
    match parsed {
        Ok(t) => Ok(resolve_now(t)),
        Err(e) => Err(e),
    }
}

/// Resolves an explicit date text into a pair.
pub fn resolve_date(date: &str) -> (r: Result<TimestampPair, Error>)
    ensures
        r matches Ok(p) ==> p.access == p.modification,
        r is Ok || r matches Err(Error::DateParseError(_)),
        (r matches Err(Error::DateParseError(m)) && m@ == refusal_text()) <==> !parsable_text(
            date@,
        ),
{
    pair_from_date(parse_date(date))
}

/// The times of the reference file at `path`, given the outcome of reading its
/// metadata: a missing file is `FileNotFound(path)`, any other failure an `IoError`.
pub fn get_file_times(path: &str, read: Result<(FileStamp, FileStamp), IoFailure>) -> (r: Result<
    TimestampPair,
    Error,
>)
    ensures
        match read {
            Ok((a, m)) => r == Ok::<TimestampPair, Error>(pair_of(a, m)),
            Err(IoFailure::NotFound(_)) => r matches Err(Error::FileNotFound(p)) && p@ == path@,
            Err(IoFailure::Other(m)) => r matches Err(e) && is_io_error(e, m@),
        },
{
    match read {
        Ok((a, m)) => Ok(TimestampPair { access: a, modification: m }),
        Err(IoFailure::NotFound(_)) => Err(Error::FileNotFound(path.to_string())),
        Err(f) => Err(f.into_error()),
    }
}

/// Reading a reference file keeps its two times apart: when they differ, so do
/// the resolved access and modification times.
pub proof fn reference_times_stay_distinct(a: FileStamp, m: FileStamp)
    requires
        a != m,
    ensures
        pair_of(a, m).access != pair_of(a, m).modification,
        pair_of(a, m).access == a,
        pair_of(a, m).modification == m,
{
}

} // verus!
