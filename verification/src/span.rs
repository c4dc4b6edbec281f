//! The duration codec: an elapsed time, written the way people write one
//! ("1h 30m", "45s").
//!
//! Reading and writing are `humantime`'s. Its reader gives up, instead of
//! refusing, on a text that stands for the most seconds there are and a full
//! second of nanoseconds on top. Before a text is handed to it, the codec
//! makes sure that the text cannot be one of those: it has at most eleven
//! digits in all, so that its seconds stay far below the most there are, or
//! it is tame, so that its nanoseconds stay below a second. A text that is
//! neither is refused. Every text that the codec writes is tame.

use vstd::prelude::*;
use crate::fault::Kind;
use crate::text::chars_of;

verus! {

/// The elapsed time that `humantime::parse_duration` reads from a text, as
/// whole seconds and the nanoseconds beyond them; `None` where it refuses
/// the text.
pub uninterp spec fn duration_reading(text: Seq<char>) -> Option<(u64, u32)>;

/// The text that `humantime::format_duration` prints for an elapsed time.
pub uninterp spec fn duration_text(secs: u64, nanos: u32) -> Seq<char>;

/// The units below a second.
#[derive(Debug, Clone, Copy, PartialEq, Eq, Structural)]
pub enum Fine {
    Milli,
    Micro,
    Nano,
}

/// Whether `c` is a decimal digit.
pub open spec fn is_digit(c: char) -> bool {
    '0' <= c && c <= '9'
}

/// Whether `c` is a letter that a unit is written with.
pub open spec fn is_unit_letter(c: char) -> bool {
    ('a' <= c && c <= 'z') || ('A' <= c && c <= 'Z') || c == '\u{b5}'
}

/// How many digits stand between place `i` and the letter before it, or the
/// beginning of the text: the digits of the number in front of a unit that
/// begins at `i`.
pub open spec fn digits_before(s: Seq<char>, i: int) -> nat
    decreases i,
{
    if i <= 0 || i > s.len() {
        0
    } else if is_unit_letter(s[i - 1]) {
        0
    } else if is_digit(s[i - 1]) {
        1 + digits_before(s, i - 1)
    } else {
        digits_before(s, i - 1)
    }
}

/// Whether a run of letters begins at place `i`.
pub open spec fn begins_unit(s: Seq<char>, i: int) -> bool {
    0 <= i < s.len() && is_unit_letter(s[i]) && (i == 0 || !is_unit_letter(s[i - 1]))
}

/// The unit below a second that the run of letters beginning at place `i`
/// may name, going by how it begins: `n` for nanoseconds, `u` or the micro
/// sign for microseconds, `ms` or `mil` for milliseconds.
pub open spec fn fine_unit(s: Seq<char>, i: int) -> Option<Fine> {
    if !begins_unit(s, i) {
        None
    } else if s[i] == 'n' {
        Some(Fine::Nano)
    } else if s[i] == 'u' || s[i] == '\u{b5}' {
        Some(Fine::Micro)
    } else if s[i] == 'm' && i + 1 < s.len() && (s[i + 1] == 's' || (s[i + 1] == 'i' && i + 2
        < s.len() && s[i + 2] == 'l')) {
        Some(Fine::Milli)
    } else {
        None
    }
}

/// Whether the nanoseconds that a text can add up stay below a second: it
/// has no decimal point, and of milliseconds, microseconds and nanoseconds
/// each at most one item, with a number of at most three digits.
pub open spec fn tame(s: Seq<char>) -> bool {
    &&& forall|i: int| 0 <= i < s.len() ==> s[i] != '.'
    &&& forall|i: int| (#[trigger] fine_unit(s, i)) is Some ==> digits_before(s, i) <= 3
    &&& forall|i: int, j: int|
        i < j && (#[trigger] fine_unit(s, i)) is Some ==> fine_unit(s, i) != #[trigger] fine_unit(
            s,
            j,
        )
}

/// How many of the first `n` characters are digits.
pub open spec fn digits_upto(s: Seq<char>, n: int) -> nat
    decreases n,
{
    if n <= 0 || n > s.len() {
        0
    } else if is_digit(s[n - 1]) {
        digits_upto(s, n - 1) + 1
    } else {
        digits_upto(s, n - 1)
    }
}

/// Whether a text has at most eleven digits in all. The numbers in such a
/// text add up to less than 10^11, and what they stand for to less than
/// 31 557 600 x 10^11 seconds, the seconds of that many years.
pub open spec fn few_digits(s: Seq<char>) -> bool {
    digits_upto(s, s.len() as int) <= 11
}

/// Whether a text is handed to the reader: it has few digits, or it is
/// tame.
pub open spec fn admitted(s: Seq<char>) -> bool {
    tame(s) || few_digits(s)
}

/// An elapsed time: whole seconds, and less than a second in nanoseconds.
#[derive(Debug, Clone, Copy, PartialEq, Eq, Hash)]
pub struct Span {
    secs: u64,
    nanos: u32,
}

impl View for Span {
    type V = (u64, u32);

    closed spec fn view(&self) -> (u64, u32) {
        (self.secs, self.nanos)
    }
}

/// `humantime::parse_duration`, with the seconds and nanoseconds of the
/// `Duration` it returns. Claimed of it: the result depends on the text
/// alone, and the nanoseconds are below a second, as std documents.
///
/// Left out are the texts on which it may panic. It adds up seconds and
/// nanoseconds item by item and carries a second only where the nanoseconds
/// go beyond one, so exactly a second of them, on top of the most seconds
/// there are, reaches `Duration::new`, which then overflows. With few digits
/// the seconds never get that far: every number, and every numerator of a
/// fraction, is counted at most as years. Nanoseconds come from a decimal
/// point and from the items of milliseconds, microseconds and nanoseconds,
/// whose units begin as `fine_unit` says; in a tame text they add up to less
/// than a second.
#[verifier::external_body]
fn humantime_parse(text: &str) -> (r: Option<(u64, u32)>)
    requires
        admitted(text@),
    ensures
        r == duration_reading(text@),
        r is Some ==> r->Some_0.1 < 1_000_000_000,
{
    humantime::parse_duration(text).ok().map(|d| (d.as_secs(), d.subsec_nanos()))
}

/// `humantime::format_duration`, printed. Claimed of it: the text depends on
/// the elapsed time alone, and `parse_duration` reads the same elapsed time
/// from it, as its documentation guarantees. The text is tame: it is `0s`, or
/// items of years, months, days, `h`, `m`, `s`, `ms`, `us` and `ns`, each at
/// most once, without a decimal point, and with a number below a thousand in
/// front of each of the last three.
#[verifier::external_body]
fn humantime_format(secs: u64, nanos: u32) -> (r: String)
    requires
        nanos < 1_000_000_000,
    ensures
        r@ == duration_text(secs, nanos),
        duration_reading(r@) == Some((secs, nanos)),
        tame(r@),
{
    humantime::format_duration(std::time::Duration::new(secs, nanos)).to_string()
}

fn is_decimal_digit(c: char) -> (r: bool)
    ensures
        r == is_digit(c),
{
    '0' <= c && c <= '9'
}

fn is_letter_of_unit(c: char) -> (r: bool)
    ensures
        r == is_unit_letter(c),
{
    ('a' <= c && c <= 'z') || ('A' <= c && c <= 'Z') || c == '\u{b5}'
}

/// The unit below a second that the letters at place `i` may name, where a
/// run of letters begins there.
fn fine_unit_at(chars: &Vec<char>, i: usize) -> (r: Option<Fine>)
    requires
        begins_unit(chars@, i as int),
    ensures
        r == fine_unit(chars@, i as int),
{
    let len = chars.len();
    let c = chars[i];
    if c == 'n' {
        Some(Fine::Nano)
    } else if c == 'u' || c == '\u{b5}' {
        Some(Fine::Micro)
    } else if c == 'm' && i < len - 1 {
        if chars[i + 1] == 's' {
            Some(Fine::Milli)
        } else if chars[i + 1] == 'i' && i + 1 < len - 1 && chars[i + 2] == 'l' {
            Some(Fine::Milli)
        } else {
            None
        }
    } else {
        None
    }
}

/// Whether the nanoseconds that a text can add up stay below a second.
pub fn is_tame(text: &str) -> (r: bool)
    ensures
        r == tame(text@),
{
    let chars = chars_of(text);
    let len = chars.len();
    let ghost s = text@;
    let mut i: usize = 0;
    let mut run: usize = 0;
    let mut after_letter = false;
    let mut milli = false;
    let mut micro = false;
    let mut nano = false;
    let ghost mut milli_at: int = 0;
    let ghost mut micro_at: int = 0;
    let ghost mut nano_at: int = 0;
    while i < len
        invariant
            s == text@,
            s == chars@,
            len == s.len(),
            i <= len,
            run <= i,
            run == digits_before(s, i as int),
            after_letter == (i > 0 && is_unit_letter(s[i - 1])),
            forall|k: int| 0 <= k < i ==> s[k] != '.',
            forall|k: int| k < i && (#[trigger] fine_unit(s, k)) is Some ==> digits_before(s, k) <= 3,
            forall|a: int, b: int|
                a < b < i && (#[trigger] fine_unit(s, a)) is Some ==> fine_unit(s, a)
                    != #[trigger] fine_unit(s, b),
            milli ==> milli_at < i && fine_unit(s, milli_at) == Some(Fine::Milli),
            micro ==> micro_at < i && fine_unit(s, micro_at) == Some(Fine::Micro),
            nano ==> nano_at < i && fine_unit(s, nano_at) == Some(Fine::Nano),
            !milli ==> forall|k: int| k < i ==> #[trigger] fine_unit(s, k) != Some(Fine::Milli),
            !micro ==> forall|k: int| k < i ==> #[trigger] fine_unit(s, k) != Some(Fine::Micro),
            !nano ==> forall|k: int| k < i ==> #[trigger] fine_unit(s, k) != Some(Fine::Nano),
        decreases len - i,
    {
        let c = chars[i];
        if c == '.' {
            return false;
        }
        if is_letter_of_unit(c) {
            if !after_letter {
                match fine_unit_at(&chars, i) {
                    Some(unit) => {
                        if run > 3 {
                            return false;
                        }
                        match unit {
                            Fine::Milli => {
                                if milli {
                                    assert(fine_unit(s, milli_at) == fine_unit(s, i as int));
                                    return false;
                                }
                                milli = true;
                                proof {
                                    milli_at = i as int;
                                }
                            },
                            Fine::Micro => {
                                if micro {
                                    assert(fine_unit(s, micro_at) == fine_unit(s, i as int));
                                    return false;
                                }
                                micro = true;
                                proof {
                                    micro_at = i as int;
                                }
                            },
                            Fine::Nano => {
                                if nano {
                                    assert(fine_unit(s, nano_at) == fine_unit(s, i as int));
                                    return false;
                                }
                                nano = true;
                                proof {
                                    nano_at = i as int;
                                }
                            },
                        }
                    },
                    None => {},
                }
            }
            run = 0;
            after_letter = true;
        } else {
            if is_decimal_digit(c) {
                run = run + 1;
            }
            after_letter = false;
        }
        i += 1;
    }
    true
}

/// Whether a text has at most eleven digits in all.
pub fn has_few_digits(text: &str) -> (r: bool)
    ensures
        r == few_digits(text@),
{
    let chars = chars_of(text);
    let mut count: usize = 0;
    let mut i: usize = 0;
    while i < chars.len()
        invariant
            chars@ == text@,
            i <= chars.len(),
            count <= i,
            count == digits_upto(chars@, i as int),
        decreases chars.len() - i,
    {
        if is_decimal_digit(chars[i]) {
            count = count + 1;
        }
        i += 1;
    }
    count <= 11
}

impl Span {
    #[verifier::type_invariant]
    spec fn below_a_second(self) -> bool {
        self.nanos < 1_000_000_000
    }

    /// What reading a text gives: the elapsed time that the reader finds
    /// in a text that is handed to it, or the refusal.
    pub open spec fn decoding(text: Seq<char>) -> Result<(u64, u32), Kind> {
        if !admitted(text) {
            Err(Kind::InvalidDuration)
        } else {
            match duration_reading(text) {
                Some(parts) => Ok(parts),
                None => Err(Kind::InvalidDuration),
            }
        }
    }

    /// Whether the text of an elapsed time reads back as that elapsed time.
    pub open spec fn reads_back(parts: (u64, u32)) -> bool {
        Span::decoding(duration_text(parts.0, parts.1)) == Ok::<(u64, u32), Kind>(parts)
    }

    /// Reads an elapsed time. Besides what is no elapsed time, a text of
    /// more than eleven digits is refused where it has a decimal point or,
    /// of milliseconds, microseconds or nanoseconds, an item twice or a
    /// number of more than three digits.
    pub fn decode(text: &str) -> (r: Result<Span, Kind>)
        ensures
            match r {
                Ok(span) => Span::decoding(text@) == Ok::<(u64, u32), Kind>(span@) && span@.1
                    < 1_000_000_000,
                Err(kind) => Span::decoding(text@) == Err::<(u64, u32), Kind>(kind),
            },
    {
        if !has_few_digits(text) && !is_tame(text) {
            return Err(Kind::InvalidDuration);
        }
        match humantime_parse(text) {
            Some((secs, nanos)) => Ok(Span { secs, nanos }),
            None => Err(Kind::InvalidDuration),
        }
    }

    /// The canonical spelling of an elapsed time that is given as a text:
    /// the text is read and written again. What comes out reads as what went
    /// in.
    pub fn respell(text: &str) -> (r: Result<String, Kind>)
        ensures
            match r {
                Ok(again) => Span::decoding(text@) is Ok && Span::decoding(again@)
                    == Span::decoding(text@) && again@ == duration_text(
                    Span::decoding(text@)->Ok_0.0,
                    Span::decoding(text@)->Ok_0.1,
                ),
                Err(kind) => Span::decoding(text@) == Err::<(u64, u32), Kind>(kind),
            },
    {
        match Span::decode(text) {
            Ok(span) => Ok(span.encode()),
            Err(kind) => Err(kind),
        }
    }

    /// Writes the elapsed time. The text reads back as the same elapsed
    /// time: what a text reads as is what it still reads as once it has been
    /// read and written.
    pub fn encode(&self) -> (text: String)
        ensures
            text@ == duration_text(self@.0, self@.1),
            Span::reads_back(self@),
    {
        proof {
            use_type_invariant(self);
        }
        humantime_format(self.secs, self.nanos)
    }

    /// Whether two elapsed times are the same.
    pub fn same_as(&self, other: &Span) -> (same: bool)
        ensures
            same == (self@ == other@),
    {
        self.secs == other.secs && self.nanos == other.nanos
    }

    /// An elapsed time from its parts; `None` where the nanoseconds make up
    /// a second or more.
    pub fn new(secs: u64, nanos: u32) -> (r: Option<Span>)
        ensures
            nanos < 1_000_000_000 ==> r is Some && r->Some_0@ == (secs, nanos),
            nanos >= 1_000_000_000 ==> r is None,
    {
        if nanos < 1_000_000_000 {
            Some(Span { secs, nanos })
        } else {
            None
        }
    }

    /// The whole seconds.
    pub fn secs(&self) -> (secs: u64)
        ensures
            secs == self@.0,
    {
        self.secs
    }

    /// The nanoseconds beyond the whole seconds.
    pub fn nanos(&self) -> (nanos: u32)
        ensures
            nanos == self@.1,
            nanos < 1_000_000_000,
    {
        proof {
            use_type_invariant(self);
        }
        self.nanos
    }
}

} // verus!
