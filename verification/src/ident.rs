//! The identifier codec: 128 bits, written as 32 hexadecimal digits in five
//! groups.

use vstd::prelude::*;
use vstd::string::StrSliceExecFns;
use crate::fault::Kind;

verus! {

/// Whether `c` is a hexadecimal digit, of either case.
pub open spec fn is_hex(c: char) -> bool {
    ('0' <= c && c <= '9') || ('a' <= c && c <= 'f') || ('A' <= c && c <= 'F')
}

/// The number that a hexadecimal digit stands for.
pub open spec fn hex_value(c: char) -> int {
    if '0' <= c && c <= '9' {
        c as int - '0' as int
    } else if 'a' <= c && c <= 'f' {
        c as int - 'a' as int + 10
    } else if 'A' <= c && c <= 'F' {
        c as int - 'A' as int + 10
    } else {
        0
    }
}

/// The lower-case digit for a number below sixteen.
pub open spec fn hex_char(v: int) -> char {
    if v == 0 {
        '0'
    } else if v == 1 {
        '1'
    } else if v == 2 {
        '2'
    } else if v == 3 {
        '3'
    } else if v == 4 {
        '4'
    } else if v == 5 {
        '5'
    } else if v == 6 {
        '6'
    } else if v == 7 {
        '7'
    } else if v == 8 {
        '8'
    } else if v == 9 {
        '9'
    } else if v == 10 {
        'a'
    } else if v == 11 {
        'b'
    } else if v == 12 {
        'c'
    } else if v == 13 {
        'd'
    } else if v == 14 {
        'e'
    } else {
        'f'
    }
}

/// The lower-case form of a hexadecimal digit; any other character is itself.
pub open spec fn lowered(c: char) -> char {
    if 'A' <= c && c <= 'F' {
        hex_char(hex_value(c))
    } else {
        c
    }
}

/// The places of the four hyphens in the canonical form.
pub open spec fn is_hyphen_place(p: int) -> bool {
    p == 8 || p == 13 || p == 18 || p == 23
}

/// The place in the canonical form of the digit with index `k`, of 32.
pub open spec fn digit_place(k: int) -> int {
    k + (if k >= 8 { 1int } else { 0 }) + (if k >= 12 { 1int } else { 0 })
        + (if k >= 16 { 1int } else { 0 }) + (if k >= 20 { 1int } else { 0 })
}

/// The index, of 32, of the digit at place `p` of the canonical form.
pub open spec fn digit_index(p: int) -> int {
    p - (if p > 8 { 1int } else { 0 }) - (if p > 13 { 1int } else { 0 })
        - (if p > 18 { 1int } else { 0 }) - (if p > 23 { 1int } else { 0 })
}

/// Whether place `p` of `s` holds what the canonical form has there.
pub open spec fn place_fits(s: Seq<char>, p: int) -> bool {
    if is_hyphen_place(p) {
        s[p] == '-'
    } else {
        is_hex(s[p])
    }
}

/// The canonical form: 36 characters, hyphens after 8, 12, 16 and 20 digits,
/// hexadecimal digits of either case elsewhere.
pub open spec fn canonical(s: Seq<char>) -> bool {
    &&& s.len() == 36
    &&& forall|p: int| 0 <= p < 36 ==> #[trigger] place_fits(s, p)
}

/// The sixteen bytes that a canonical text stands for, the first digit
/// being the high half of the first byte.
pub open spec fn identifier_bytes(s: Seq<char>) -> Seq<u8> {
    Seq::new(
        16,
        |i: int|
            (16 * hex_value(s[digit_place(2 * i)]) + hex_value(s[digit_place(2 * i + 1)])) as u8,
    )
}

/// The character at place `p` of the canonical form of sixteen bytes.
pub open spec fn text_place(b: Seq<u8>, p: int) -> char {
    if is_hyphen_place(p) {
        '-'
    } else if digit_index(p) % 2 == 0 {
        hex_char(b[digit_index(p) / 2] as int / 16)
    } else {
        hex_char(b[digit_index(p) / 2] as int % 16)
    }
}

/// The canonical form of sixteen bytes, in lower case.
pub open spec fn identifier_text(b: Seq<u8>) -> Seq<char> {
    Seq::new(36, |p: int| text_place(b, p))
}

/// A 128-bit identifier.
#[derive(Debug, Clone, Copy, PartialEq, Eq, Hash)]
pub struct Identifier {
    pub bytes: [u8; 16],
}

impl View for Identifier {
    type V = Seq<u8>;

    open spec fn view(&self) -> Seq<u8> {
        self.bytes@
    }
}

/// `uuid::Uuid::parse_str`, with the bytes of the identifier it read. Claimed
/// of it: a text in canonical form is accepted, and read digit by digit, two
/// digits to a byte. Nothing is claimed of other texts.
#[verifier::external_body]
fn uuid_parse(text: &str) -> (r: Option<[u8; 16]>)
    ensures
        canonical(text@) ==> r is Some && r->Some_0@ == identifier_bytes(text@),
{
    uuid::Uuid::parse_str(text).ok().map(|id| id.into_bytes())
}

/// The hyphenated form that `uuid::Uuid` prints. Claimed of it: 36
/// characters, lower-case digits, two to a byte, hyphens at the four places.
#[verifier::external_body]
fn uuid_format(bytes: &[u8; 16]) -> (r: String)
    ensures
        r@ == identifier_text(bytes@),
{
    uuid::Uuid::from_bytes(*bytes).hyphenated().to_string()
}

fn is_hex_digit(c: char) -> (r: bool)
    ensures
        r == is_hex(c),
{
    ('0' <= c && c <= '9') || ('a' <= c && c <= 'f') || ('A' <= c && c <= 'F')
}

/// Whether `text` is an identifier in canonical form.
pub fn is_canonical(text: &str) -> (r: bool)
    ensures
        r == canonical(text@),
{
    if text.unicode_len() != 36 {
        return false;
    }
    let mut p: usize = 0;
    while p < 36
        invariant
            p <= 36,
            text@.len() == 36,
            forall|q: int| 0 <= q < p ==> #[trigger] place_fits(text@, q),
        decreases 36 - p,
    {
        let c = text.get_char(p);
        let fits = if p == 8 || p == 13 || p == 18 || p == 23 {
            c == '-'
        } else {
            is_hex_digit(c)
        };
        if !fits {
            assert(!place_fits(text@, p as int));
            return false;
        }
        p += 1;
    }
    true
}

impl Identifier {
    /// What reading a text gives: the bytes of a canonical text, or the
    /// refusal of any other.
    pub open spec fn decoding(text: Seq<char>) -> Result<Seq<u8>, Kind> {
        if canonical(text) {
            Ok(identifier_bytes(text))
        } else {
            Err(Kind::InvalidIdentifier)
        }
    }

    /// Reads an identifier from its canonical form. Any other text, the
    /// other forms that identifiers are written in included, is refused.
    pub fn decode(text: &str) -> (r: Result<Identifier, Kind>)
        ensures
            match r {
                Ok(id) => Identifier::decoding(text@) == Ok::<Seq<u8>, Kind>(id@),
                Err(kind) => Identifier::decoding(text@) == Err::<Seq<u8>, Kind>(kind),
            },
            r is Ok ==> r->Ok_0@.len() == 16,
    {
        if !is_canonical(text) {
            return Err(Kind::InvalidIdentifier);
        }
        match uuid_parse(text) {
            Some(bytes) => Ok(Identifier { bytes }),
            None => Err(Kind::InvalidIdentifier),
        }
    }

    /// Whether two identifiers are the same.
    pub fn same_as(&self, other: &Identifier) -> (same: bool)
        ensures
            same == (self@ == other@),
    {
        let mut i: usize = 0;
        while i < 16
            invariant
                i <= 16,
                forall|k: int| 0 <= k < i ==> self@[k] == other@[k],
            decreases 16 - i,
        {
            if self.bytes[i] != other.bytes[i] {
                assert(self@[i as int] != other@[i as int]);
                return false;
            }
            i += 1;
        }
        assert(self@ =~= other@);
        true
    }

    /// Writes the identifier in canonical form, in lower case.
    pub fn encode(&self) -> (text: String)
        ensures
            text@ == identifier_text(self@),
    {
        uuid_format(&self.bytes)
    }
}

/// Reading a canonical text and writing the identifier gives the text again,
/// in lower case.
pub proof fn law_identifier_text_round_trip(u: Seq<char>)
    requires
        canonical(u),
    ensures
        identifier_text(identifier_bytes(u)) == u.map_values(|c: char| lowered(c)),
{
    let b = identifier_bytes(u);
    let back = identifier_text(b);
    let low = u.map_values(|c: char| lowered(c));
    assert forall|p: int| 0 <= p < 36 implies back[p] == low[p] by {
        assert(place_fits(u, p));
        if !is_hyphen_place(p) {
            let k = digit_index(p);
            assert(digit_place(k) == p);
            let i = k / 2;
            assert(place_fits(u, digit_place(2 * i)));
            assert(place_fits(u, digit_place(2 * i + 1)));
            let hi = hex_value(u[digit_place(2 * i)]);
            let lo = hex_value(u[digit_place(2 * i + 1)]);
            assert(0 <= hi < 16 && 0 <= lo < 16);
            assert(b[i] as int == 16 * hi + lo);
            assert((16 * hi + lo) / 16 == hi);
            assert((16 * hi + lo) % 16 == lo);
        }
    }
    assert(back =~= low);
}

/// Writing sixteen bytes gives a canonical text, and reading it gives the
/// bytes again.
pub proof fn law_identifier_bytes_round_trip(b: Seq<u8>)
    requires
        b.len() == 16,
    ensures
        canonical(identifier_text(b)),
        identifier_bytes(identifier_text(b)) == b,
{
    let t = identifier_text(b);
    assert forall|p: int| 0 <= p < 36 implies #[trigger] place_fits(t, p) by {
        if !is_hyphen_place(p) {
            let x = b[digit_index(p) / 2] as int;
            assert(0 <= x / 16 < 16 && 0 <= x % 16 < 16);
        }
    }
    let back = identifier_bytes(t);
    assert forall|i: int| 0 <= i < 16 implies back[i] == b[i] by {
        let x = b[i] as int;
        assert(digit_index(digit_place(2 * i)) == 2 * i);
        assert(digit_index(digit_place(2 * i + 1)) == 2 * i + 1);
        assert(!is_hyphen_place(digit_place(2 * i)));
        assert(!is_hyphen_place(digit_place(2 * i + 1)));
        assert(t[digit_place(2 * i)] == hex_char(x / 16));
        assert(t[digit_place(2 * i + 1)] == hex_char(x % 16));
        assert(0 <= x / 16 < 16 && 0 <= x % 16 < 16);
        assert(hex_value(hex_char(x / 16)) == x / 16);
        assert(hex_value(hex_char(x % 16)) == x % 16);
        assert(16 * (x / 16) + x % 16 == x);
    }
    assert(back =~= b);
}

} // verus!
