//! A point in time carrying the UTC offset it was written with.

use vstd::prelude::*;

use crate::ConversionError;

verus! {

/// The decomposition chrono's RFC 3339 parser gives to a text: seconds since
/// the Unix epoch, nanoseconds within that second, and the UTC offset in
/// seconds; `None` when the text is not an RFC 3339 date-time with offset.
pub uninterp spec fn spec_parse_rfc3339(s: Seq<char>) -> Option<(int, int, int)>;

/// Relies on chrono::DateTime::parse_from_rfc3339, decomposed through
/// DateTime::timestamp, DateTime::timestamp_subsec_nanos and
/// FixedOffset::local_minus_utc: whether a text parses, and the instant and
/// offset it denotes, depend on the characters alone. chrono keeps a parsed
/// offset strictly between -86_400 and 86_400 seconds, and nanoseconds below
/// 2_000_000_000 (leap seconds included).
#[verifier::external_body]
fn parse_rfc3339(s: &str) -> (r: Option<(i64, u32, i32)>)
    ensures
        r is Some <==> spec_parse_rfc3339(s@) is Some,
        r matches Some(p) ==> spec_parse_rfc3339(s@) == Some((p.0 as int, p.1 as int, p.2 as int)),
        r matches Some(p) ==> p.1 < 2_000_000_000 && -86400 < p.2 < 86400,
{
    match chrono::DateTime::parse_from_rfc3339(s) {
        Ok(dt) => Some((dt.timestamp(), dt.timestamp_subsec_nanos(), dt.offset().local_minus_utc())),
        Err(_) => None,
    }
}

/// A timestamp with an explicit UTC offset: the instant as seconds and
/// nanoseconds since the Unix epoch, together with the offset it was written
/// with. The offset is stored as supplied and never normalized away.
#[derive(Clone, Copy, Debug, PartialEq, Eq, Hash, Structural)]
pub struct Timestamp {
    epoch_seconds: i64,
    subsec_nanos: u32,
    offset_seconds: i32,
}

impl View for Timestamp {
    type V = (int, int, int);

    closed spec fn view(&self) -> (int, int, int) {
        (self.epoch_seconds as int, self.subsec_nanos as int, self.offset_seconds as int)
    }
}

/// The character for a decimal digit.
pub open spec fn spec_digit(d: int) -> char {
    if d == 0 {
        '0'
    } else if d == 1 {
        '1'
    } else if d == 2 {
        '2'
    } else if d == 3 {
        '3'
    } else if d == 4 {
        '4'
    } else if d == 5 {
        '5'
    } else if d == 6 {
        '6'
    } else if d == 7 {
        '7'
    } else if d == 8 {
        '8'
    } else {
        '9'
    }
}

/// The `+HH:MM` / `-HH:MM` rendering of a UTC offset given in seconds.
pub open spec fn spec_offset_suffix(off: int) -> Seq<char> {
    let a = if off < 0 {
        -off
    } else {
        off
    };
    let h = a / 3600;
    let m = (a % 3600) / 60;
    seq![
        if off < 0 {
            '-'
        } else {
            '+'
        },
        spec_digit(h / 10),
        spec_digit(h % 10),
        ':',
        spec_digit(m / 10),
        spec_digit(m % 10),
    ]
}

/// Two timestamps are the same value exactly when they agree on instant and
/// offset: the view loses nothing.
pub proof fn lemma_timestamp_eq_is_view_eq(a: Timestamp, b: Timestamp)
    ensures
        (a == b) <==> (a@ == b@),
{
    if a@ == b@ {
        assert(a.epoch_seconds == b.epoch_seconds);
        assert(a.subsec_nanos == b.subsec_nanos);
        assert(a.offset_seconds == b.offset_seconds);
    }
}

fn digit_str(d: i32) -> (r: &'static str)
    requires
        0 <= d < 10,
    ensures
        r@ == seq![spec_digit(d as int)],
{
    let r: &'static str = if d == 0 {
        "0"
    } else if d == 1 {
        "1"
    } else if d == 2 {
        "2"
    } else if d == 3 {
        "3"
    } else if d == 4 {
        "4"
    } else if d == 5 {
        "5"
    } else if d == 6 {
        "6"
    } else if d == 7 {
        "7"
    } else if d == 8 {
        "8"
    } else {
        "9"
    };
    proof {
        reveal_strlit("0");
        reveal_strlit("1");
        reveal_strlit("2");
        reveal_strlit("3");
        reveal_strlit("4");
        reveal_strlit("5");
        reveal_strlit("6");
        reveal_strlit("7");
        reveal_strlit("8");
        reveal_strlit("9");
        assert(r@ =~= seq![spec_digit(d as int)]);
    }
    r
}

impl Timestamp {
    #[verifier::type_invariant]
    spec fn inv(self) -> bool {
        self.subsec_nanos < 2_000_000_000 && -86400 < self.offset_seconds < 86400
    }

    /// Assembles a timestamp from its parts: seconds and nanoseconds since
    /// the Unix epoch, and the UTC offset in seconds. The nanoseconds must
    /// stay below two seconds (leap seconds included) and the offset strictly
    /// within one day, exactly the values an RFC 3339 parse can produce.
    pub fn from_parts(epoch_seconds: i64, subsec_nanos: u32, offset_seconds: i32) -> (r: Option<
        Timestamp,
    >)
        ensures
            r is Some <==> (subsec_nanos < 2_000_000_000 && -86400 < offset_seconds < 86400),
            r matches Some(t) ==> t@ == (epoch_seconds as int, subsec_nanos as int, offset_seconds as int),
    {
        if subsec_nanos < 2_000_000_000 && -86400 < offset_seconds && offset_seconds < 86400 {
            Some(Timestamp { epoch_seconds, subsec_nanos, offset_seconds })
        } else {
            None
        }
    }

    /// Parses an RFC 3339 date-time with an explicit UTC offset, keeping the
    /// offset exactly as written; any other text is rejected with
    /// `InvalidTimestamp`.
    pub fn parse(s: &str) -> (r: Result<Timestamp, ConversionError>)
        ensures
            r is Ok <==> spec_parse_rfc3339(s@) is Some,
            r matches Ok(t) ==> spec_parse_rfc3339(s@) == Some(t@),
            r matches Err(e) ==> e == ConversionError::InvalidTimestamp,
    {
        match parse_rfc3339(s) {
            Some(p) => {
                match Timestamp::from_parts(p.0, p.1, p.2) {
                    Some(t) => Ok(t),
                    None => {
                        proof {
                            assert(false);
                        }
                        Err(ConversionError::InvalidTimestamp)
                    },
                }
            },
            None => Err(ConversionError::InvalidTimestamp),
        }
    }

    /// Seconds since the Unix epoch of the instant this timestamp denotes.
    pub fn epoch_seconds(&self) -> (r: i64)
        ensures
            r as int == self@.0,
    {
        self.epoch_seconds
    }

    /// Nanoseconds within the second of the instant this timestamp denotes.
    pub fn subsec_nanos(&self) -> (r: u32)
        ensures
            r as int == self@.1,
    {
        self.subsec_nanos
    }

    /// The UTC offset this timestamp was written with, in seconds east.
    pub fn offset_seconds(&self) -> (r: i32)
        ensures
            r as int == self@.2,
    {
        self.offset_seconds
    }

    /// Renders the stored UTC offset as `+HH:MM` or `-HH:MM`, exactly as it
    /// stands in an RFC 3339 text; the offset is never converted to UTC.
    pub fn offset_suffix(&self) -> (r: String)
        ensures
            r@ == spec_offset_suffix(self@.2),
    {
        proof {
            use_type_invariant(self);
        }
        let off = self.offset_seconds;
        let a: i32 = if off < 0 {
            -off
        } else {
            off
        };
        let h: i32 = a / 3600;
        let m: i32 = (a % 3600) / 60;
        let mut r = String::from_str(
            if off < 0 {
                "-"
            } else {
                "+"
            },
        );
        r.append(digit_str(h / 10));
        r.append(digit_str(h % 10));
        r.append(":");
        r.append(digit_str(m / 10));
        r.append(digit_str(m % 10));
        proof {
            reveal_strlit("-");
            reveal_strlit("+");
            reveal_strlit(":");
            assert(r@ =~= spec_offset_suffix(self@.2));
        }
        r
    }
}

} // verus!
