//! Account addresses: twenty bytes, written as hex text.
use vstd::prelude::*;

verus! {

/// Number of bytes in an address.
pub const ADDRESS_LEN: usize = 20;

/// A twenty-byte account address, most significant byte first.
#[derive(Clone, Copy, Debug)]
pub struct Address {
    pub bytes: [u8; 20],
}

impl View for Address {
    type V = Seq<u8>;

    open spec fn view(&self) -> Seq<u8> {
        self.bytes@
    }
}

pub open spec fn is_hex_digit(c: char) -> bool {
    ('0' <= c && c <= '9') || ('a' <= c && c <= 'f') || ('A' <= c && c <= 'F')
}

/// Characters that the hex reader skips wherever they stand.
pub open spec fn is_hex_blank(c: char) -> bool {
    c == ' ' || c == '\r' || c == '\n' || c == '\t'
}

pub open spec fn hex_value(c: char) -> int {
    if '0' <= c && c <= '9' {
        c as int - '0' as int
    } else if 'a' <= c && c <= 'f' {
        c as int - 'a' as int + 10
    } else {
        c as int - 'A' as int + 10
    }
}

/// The text after an optional lower-case `0x` prefix.
pub open spec fn hex_body(s: Seq<char>) -> Seq<char> {
    if s.len() >= 2 && s[0] == '0' && s[1] == 'x' {
        s.skip(2)
    } else {
        s
    }
}

/// The hex digits of the body, blanks left out.
pub open spec fn hex_digits(s: Seq<char>) -> Seq<char> {
    hex_body(s).filter(|c: char| is_hex_digit(c))
}

/// `s` is an address: apart from the prefix it holds only hex digits and
/// blanks, and exactly two digits for each byte.
pub open spec fn is_address_text(s: Seq<char>) -> bool {
    &&& forall|i: int|
        0 <= i < hex_body(s).len() ==> is_hex_digit(#[trigger] hex_body(s)[i]) || is_hex_blank(
            hex_body(s)[i],
        )
    &&& hex_digits(s).len() == 2 * ADDRESS_LEN
}

/// The bytes that an address text denotes: each pair of digits is one byte.
pub open spec fn address_bytes(s: Seq<char>) -> Seq<u8> {
    Seq::new(
        ADDRESS_LEN as nat,
        |i: int|
            (16 * hex_value(hex_digits(s)[2 * i]) + hex_value(hex_digits(s)[2 * i + 1])) as u8,
    )
}

/// Relies on `FromStr` of ethers' `Address` (fixed-hash's `H160`, reading
/// through rustc-hex's `FromHexIter`): it strips one `0x` prefix, skips
/// spaces, tabs and line breaks, and accepts exactly forty hex digits of
/// either case, read in pairs, most significant byte first.
#[verifier::external_body]
fn parse_h160(s: &str) -> (r: Option<[u8; 20]>)
    ensures
        r is Some <==> is_address_text(s@),
        r is Some ==> r->0@ == address_bytes(s@),
{
    match s.parse::<ethers::types::Address>() {
        Ok(a) => Some(a.0),
        Err(_) => None,
    }
}

impl Address {
    /// Reads an address from its hex text; `None` where the text is no address.
    pub fn parse(s: &str) -> (r: Option<Address>)
        ensures
            r is Some <==> is_address_text(s@),
            r is Some ==> r->0@ == address_bytes(s@),
    {
        match parse_h160(s) {
            Some(bytes) => Some(Address { bytes }),
            None => None,
        }
    }
}

} // verus!
