use vstd::prelude::*;

verus! {

/// The lowercase hexadecimal digit of a value below sixteen.
pub open spec fn hex_char(n: u8) -> char {
    if n == 0 { '0' }
    else if n == 1 { '1' }
    else if n == 2 { '2' }
    else if n == 3 { '3' }
    else if n == 4 { '4' }
    else if n == 5 { '5' }
    else if n == 6 { '6' }
    else if n == 7 { '7' }
    else if n == 8 { '8' }
    else if n == 9 { '9' }
    else if n == 10 { 'a' }
    else if n == 11 { 'b' }
    else if n == 12 { 'c' }
    else if n == 13 { 'd' }
    else if n == 14 { 'e' }
    else { 'f' }
}

/// Two lowercase hexadecimal digits per byte, high half first.
pub open spec fn hex_bytes(b: Seq<u8>) -> Seq<char>
    decreases b.len(),
{
    if b.len() == 0 {
        Seq::empty()
    } else {
        seq![hex_char(b[0] / 16), hex_char(b[0] % 16)] + hex_bytes(b.skip(1))
    }
}

/// The canonical text of a ledger address: `0x`, then its bytes in lowercase hex.
pub open spec fn address_hex(b: Seq<u8>) -> Seq<char> {
    seq!['0', 'x'] + hex_bytes(b)
}

pub open spec fn is_hex_digit(c: char) -> bool {
    ('0' <= c && c <= '9') || ('a' <= c && c <= 'f') || ('A' <= c && c <= 'F')
}

/// The value of a hexadecimal digit of either case.
pub open spec fn hex_value(c: char) -> int {
    if '0' <= c && c <= '9' {
        (c as u32) as int - 48
    } else if 'a' <= c && c <= 'f' {
        (c as u32) as int - 87
    } else {
        (c as u32) as int - 55
    }
}

/// The characters that address text may hold between its digits.
pub open spec fn is_hex_space(c: char) -> bool {
    c == ' ' || c == '\r' || c == '\n' || c == '\t'
}

pub open spec fn drop_spaces(s: Seq<char>) -> Seq<char>
    decreases s.len(),
{
    if s.len() == 0 {
        Seq::empty()
    } else if is_hex_space(s[0]) {
        drop_spaces(s.skip(1))
    } else {
        seq![s[0]] + drop_spaces(s.skip(1))
    }
}

/// The digits of address text: an optional `0x` taken off, then the spaces.
pub open spec fn address_digits(s: Seq<char>) -> Seq<char> {
    if s.len() >= 2 && s[0] == '0' && s[1] == 'x' {
        drop_spaces(s.skip(2))
    } else {
        drop_spaces(s)
    }
}

/// Whether text reads as a ledger address: forty hexadecimal digits.
pub open spec fn is_address_text(s: Seq<char>) -> bool {
    let d = address_digits(s);
    d.len() == 40 && forall|i: int| 0 <= i < d.len() ==> is_hex_digit(#[trigger] d[i])
}

/// The bytes that pairs of hexadecimal digits stand for, high half first.
pub open spec fn decode_hex(d: Seq<char>) -> Seq<u8>
    decreases d.len(),
{
    if d.len() < 2 {
        Seq::empty()
    } else {
        seq![(hex_value(d[0]) * 16 + hex_value(d[1])) as u8] + decode_hex(d.skip(2))
    }
}

/// Relies on the `Debug` form of web3's `Address`: `0x` and the twenty bytes as
/// lowercase hexadecimal, two digits each.
#[verifier::external_body]
fn address_text(bytes: [u8; 20]) -> (r: String)
    ensures
        r@ == address_hex(bytes@),
{
    format!("{:?}", web3::types::Address::from(bytes))
}

/// Relies on `FromStr` of web3's `Address`: after an optional `0x` it reads pairs
/// of hexadecimal digits of either case, skips spaces, tabs and line breaks, and
/// fails on any other character and on any count of digits but forty.
#[verifier::external_body]
fn address_from_text(s: &str) -> (r: Option<[u8; 20]>)
    ensures
        r.is_some() <==> is_address_text(s@),
        r matches Some(b) ==> b@ == decode_hex(address_digits(s@)),
{
    s.parse::<web3::types::Address>().ok().map(|a| a.0)
}

/// A ledger address: the twenty bytes that identify an account or a contract.
#[derive(Clone, Copy, Debug, PartialEq, Eq)]
pub struct Address {
    pub bytes: [u8; 20],
}

impl Address {
    /// Reads an address from its text, `None` where the text is not one.
    pub fn parse(s: &str) -> (r: Option<Address>)
        ensures
            r.is_some() <==> is_address_text(s@),
            r matches Some(a) ==> a.bytes@ == decode_hex(address_digits(s@)),
    {
        match address_from_text(s) {
            Some(b) => Some(Address { bytes: b }),
            None => None,
        }
    }

    /// The canonical lowercase text of the address.
    pub fn to_hex(&self) -> (r: String)
        ensures
            r@ == address_hex(self.bytes@),
    {
        address_text(self.bytes)
    }
}

proof fn lemma_hex_char(n: u8)
    requires
        n < 16,
    ensures
        is_hex_digit(hex_char(n)),
        !is_hex_space(hex_char(n)),
        hex_value(hex_char(n)) == n as int,
{
}

proof fn lemma_hex_bytes(b: Seq<u8>)
    ensures
        hex_bytes(b).len() == 2 * b.len(),
        forall|i: int| 0 <= i < hex_bytes(b).len() ==> is_hex_digit(#[trigger] hex_bytes(b)[i]),
        drop_spaces(hex_bytes(b)) == hex_bytes(b),
        decode_hex(hex_bytes(b)) == b,
    decreases b.len(),
{
    if b.len() > 0 {
        let h = hex_bytes(b);
        let t = hex_bytes(b.skip(1));
        lemma_hex_bytes(b.skip(1));
        lemma_hex_char(b[0] / 16);
        lemma_hex_char(b[0] % 16);
        assert(h.skip(1) =~= seq![hex_char(b[0] % 16)] + t);
        assert(h.skip(1).skip(1) =~= t);
        assert(h.skip(2) =~= t);
        assert(drop_spaces(h.skip(1)) == seq![hex_char(b[0] % 16)] + drop_spaces(t));
        assert(drop_spaces(h) =~= h);
        assert(forall|i: int| 0 <= i < h.len() ==> is_hex_digit(#[trigger] h[i])) by {
            assert forall|i: int| 0 <= i < h.len() implies is_hex_digit(#[trigger] h[i]) by {
                if i >= 2 {
                    assert(h[i] == t[i - 2]);
                }
            }
        }
        assert(decode_hex(h) =~= b);
    }
}

/// The text of an address reads back as the same address, byte for byte.
pub proof fn lemma_address_round_trip(b: Seq<u8>)
    requires
        b.len() == 20,
    ensures
        is_address_text(address_hex(b)),
        decode_hex(address_digits(address_hex(b))) == b,
{
    lemma_hex_bytes(b);
    assert(address_hex(b).skip(2) =~= hex_bytes(b));
}

} // verus!
