use vstd::prelude::*;
use vstd::string::StrSliceExecFns;

verus! {

/// The interface named on the command line: the first argument after the
/// program's name, if there is one.
pub fn interface_argument(args: &Vec<String>) -> (r: Option<String>)
    ensures
        r is Some <==> args@.len() >= 2,
        r matches Some(name) ==> name@ == args@[1]@,
{
    if args.len() >= 2 {
        Some(args[1].clone())
    } else {
        None
    }
}

/// A host attribute value without the newline that ends it.
pub open spec fn without_newline(s: Seq<char>) -> Seq<char> {
    if s.len() > 0 && s.last() == '\n' {
        s.drop_last()
    } else {
        s
    }
}

/// Strips one trailing newline, if there is one.
pub fn strip_newline(s: &str) -> (r: &str)
    ensures
        r@ == without_newline(s@),
{
    let n = s.unicode_len();
    if n > 0 && s.get_char(n - 1) == '\n' {
        s.substring_char(0, n - 1)
    } else {
        s
    }
}

/// The value of a hexadecimal digit, either case.
pub open spec fn hex_digit(c: char) -> Option<u8> {
    if '0' <= c && c <= '9' {
        Some((c as u32 - '0' as u32) as u8)
    } else if 'a' <= c && c <= 'f' {
        Some((c as u32 - 'a' as u32 + 10) as u8)
    } else if 'A' <= c && c <= 'F' {
        Some((c as u32 - 'A' as u32 + 10) as u8)
    } else {
        None
    }
}

fn hex_digit_value(c: char) -> (r: Option<u8>)
    ensures
        r == hex_digit(c),
        r matches Some(v) ==> v < 16,
{
    if '0' <= c && c <= '9' {
        Some((c as u32 - '0' as u32) as u8)
    } else if 'a' <= c && c <= 'f' {
        Some((c as u32 - 'a' as u32 + 10) as u8)
    } else if 'A' <= c && c <= 'F' {
        Some((c as u32 - 'A' as u32 + 10) as u8)
    } else {
        None
    }
}

/// The characters of a hardware address in text: six two-digit hex octets
/// separated by colons.
pub const MAC_TEXT_LEN: usize = 17;

/// The `i`-th octet of the text is two hex digits, followed by a colon
/// unless it is the last.
pub open spec fn octet_text_ok(s: Seq<char>, i: int) -> bool {
    &&& hex_digit(s[3 * i]) is Some
    &&& hex_digit(s[3 * i + 1]) is Some
    &&& i < 5 ==> s[3 * i + 2] == ':'
}

pub open spec fn octet_value(s: Seq<char>, i: int) -> u8 {
    (hex_digit(s[3 * i])->0 * 16 + hex_digit(s[3 * i + 1])->0) as u8
}

/// The text is a hardware address, as the host writes it.
pub open spec fn is_mac_text(s: Seq<char>) -> bool {
    &&& s.len() == MAC_TEXT_LEN
    &&& forall|i: int| 0 <= i < 6 ==> #[trigger] octet_text_ok(s, i)
}

/// The six octets that a hardware-address text spells.
pub open spec fn mac_octets(s: Seq<char>) -> Seq<u8> {
    Seq::new(6, |i: int| octet_value(s, i))
}

/// Parses a hardware address such as `aa:bb:cc:dd:ee:ff`.
pub fn parse_mac(s: &str) -> (r: Option<[u8; 6]>)
    ensures
        r is Some <==> is_mac_text(s@),
        r matches Some(m) ==> m@ == mac_octets(s@),
{
    if s.unicode_len() != MAC_TEXT_LEN {
        return None;
    }
    let mut octets: Vec<u8> = Vec::new();
    let mut i: usize = 0;
    let mut pos: usize = 0;
    while i < 6
        invariant
            s@.len() == MAC_TEXT_LEN,
            i <= 6,
            pos == 3 * i,
            octets@.len() == i,
            forall|j: int| 0 <= j < i ==> #[trigger] octet_text_ok(s@, j),
            forall|j: int| 0 <= j < i ==> octets@[j] == octet_value(s@, j),
        decreases 6 - i,
    {
        let hi = hex_digit_value(s.get_char(pos));
        let lo = hex_digit_value(s.get_char(pos + 1));
        let (h, l) = match (hi, lo) {
            (Some(h), Some(l)) => (h, l),
            _ => {
                assert(!octet_text_ok(s@, i as int));
                return None;
            },
        };
        if i < 5 && s.get_char(pos + 2) != ':' {
            assert(!octet_text_ok(s@, i as int));
            return None;
        }
        octets.push(h * 16 + l);
        assert(octet_text_ok(s@, i as int));
        i = i + 1;
        pos = pos + 3;
    }
    let m: [u8; 6] = [octets[0], octets[1], octets[2], octets[3], octets[4], octets[5]];
    assert(m@ =~= mac_octets(s@));
    Some(m)
}

/// The value of a string of decimal digits.
pub open spec fn digits_value(s: Seq<char>) -> int
    decreases s.len(),
{
    if s.len() == 0 {
        0
    } else {
        digits_value(s.drop_last()) * 10 + (s.last() as int - '0' as int)
    }
}

pub open spec fn all_digits(s: Seq<char>) -> bool {
    forall|i: int| 0 <= i < s.len() ==> '0' <= #[trigger] s[i] && s[i] <= '9'
}

/// A decimal `i32`: an optional `+` or `-` sign followed by one or more
/// ASCII digits, whose value lies in the range of `i32`.
pub open spec fn decimal_i32(s: Seq<char>) -> Option<i32> {
    let negative = s.len() > 0 && s[0] == '-';
    let digits = if s.len() > 0 && (s[0] == '-' || s[0] == '+') {
        s.drop_first()
    } else {
        s
    };
    let v = if negative {
        -digits_value(digits)
    } else {
        digits_value(digits)
    };
    if digits.len() > 0 && all_digits(digits) && i32::MIN <= v <= i32::MAX {
        Some(v as i32)
    } else {
        None
    }
}

/// Relies on `str::parse::<i32>` (`i32::from_str`): it accepts an optional
/// sign followed by one or more ASCII digits, and fails on anything else or
/// on a value out of range.
#[verifier::external_body]
fn parse_i32(s: &str) -> (r: Option<i32>)
    ensures
        r == decimal_i32(s@),
{
    s.parse::<i32>().ok()
}

/// An interface's identity as the host reports it.
#[derive(Clone, Copy, Debug)]
pub struct InterfaceIdentity {
    pub mac: [u8; 6],
    pub ifindex: i32,
}

/// Why the host's attribute values could not be read as an identity.
#[derive(Clone, Copy, Debug, PartialEq, Eq, Structural)]
pub enum IdentityError {
    BadAddress,
    BadIndex,
}

/// Reads an interface's identity from the contents of its `address` and
/// `ifindex` attributes, each with or without its trailing newline.
pub fn interface_identity(address: &str, ifindex: &str) -> (r: Result<InterfaceIdentity, IdentityError>)
    ensures
        !is_mac_text(without_newline(address@)) ==> r == Err::<InterfaceIdentity, IdentityError>(IdentityError::BadAddress),
        is_mac_text(without_newline(address@)) && decimal_i32(without_newline(ifindex@)) is None
            ==> r == Err::<InterfaceIdentity, IdentityError>(IdentityError::BadIndex),
        r matches Ok(id) ==> {
            &&& is_mac_text(without_newline(address@))
            &&& id.mac@ == mac_octets(without_newline(address@))
            &&& decimal_i32(without_newline(ifindex@)) == Some(id.ifindex)
        },
        r is Ok <==> is_mac_text(without_newline(address@)) && decimal_i32(without_newline(ifindex@)) is Some,
{
    let mac = match parse_mac(strip_newline(address)) {
        Some(m) => m,
        None => return Err(IdentityError::BadAddress),
    };
    match parse_i32(strip_newline(ifindex)) {
        Some(ifindex) => Ok(InterfaceIdentity { mac, ifindex }),
        None => Err(IdentityError::BadIndex),
    }
}

} // verus!
