use vstd::prelude::*;
use vstd::string::StringExecFns;

verus! {

/// An account address: sixteen bytes, held as the number they write, most
/// significant byte first. Two addresses are equal when their bytes are.
#[derive(PartialEq, Eq, Structural, Clone, Copy, Debug)]
pub struct Address {
    pub value: u128,
}

/// The value of one hexadecimal digit, of either case.
pub open spec fn hex_digit_value(c: char) -> Option<nat> {
    if '0' <= c && c <= '9' {
        Some((c as nat - '0' as nat) as nat)
    } else if 'a' <= c && c <= 'f' {
        Some((c as nat - 'a' as nat + 10) as nat)
    } else if 'A' <= c && c <= 'F' {
        Some((c as nat - 'A' as nat + 10) as nat)
    } else {
        None
    }
}

/// Whether every character of `s` is a hexadecimal digit.
pub open spec fn all_hex_digits(s: Seq<char>) -> bool {
    forall|i: int| 0 <= i < s.len() ==> hex_digit_value(#[trigger] s[i]) is Some
}

/// The number that a run of hexadecimal digits writes, most significant first.
pub open spec fn hex_value(s: Seq<char>) -> nat
    decreases s.len(),
{
    if s.len() == 0 {
        0
    } else {
        hex_value(s.drop_last()) * 16 + match hex_digit_value(s.last()) {
            Some(d) => d,
            None => 0,
        }
    }
}

/// The address that a literal denotes: `0x`, then at most thirty-two
/// hexadecimal digits; fewer digits stand for the low end of the address.
/// Any other text denotes none.
pub open spec fn hex_literal_address(s: Seq<char>) -> Option<Address> {
    if s.len() >= 2 && s[0] == '0' && s[1] == 'x' && s.len() - 2 <= 32 && all_hex_digits(
        s.subrange(2, s.len() as int),
    ) {
        Some(Address { value: hex_value(s.subrange(2, s.len() as int)) as u128 })
    } else {
        None
    }
}

/// The address that plain hexadecimal digits denote: exactly thirty-two of
/// them, with nothing before or behind. Any other text denotes none.
pub open spec fn plain_hex_address(s: Seq<char>) -> Option<Address> {
    if s.len() == 32 && all_hex_digits(s) {
        Some(Address { value: hex_value(s) as u128 })
    } else {
        None
    }
}

/// The address that a text denotes: as a literal where it is one, else as
/// plain digits.
pub open spec fn address_of_text(s: Seq<char>) -> Option<Address> {
    match hex_literal_address(s) {
        Some(address) => Some(address),
        None => plain_hex_address(s),
    }
}

/// Calls `AccountAddress::from_hex_literal` of move-core-types and hands the
/// sixteen bytes back as one number. Believed without proof: the call accepts
/// exactly the literals of `hex_literal_address`, pads a short one with
/// zeros on the left, and reads both cases of a digit.
#[verifier::external_body]
fn address_from_hex_literal(text: &str) -> (address: Option<Address>)
    ensures
        address == hex_literal_address(text@),
{
    match move_core_types::account_address::AccountAddress::from_hex_literal(text) {
        Ok(parsed) => Some(Address { value: u128::from_be_bytes(parsed.into_bytes()) }),
        Err(_) => None,
    }
}

/// Calls `AccountAddress::from_hex` of move-core-types and hands the sixteen
/// bytes back as one number. Believed without proof: the call accepts
/// exactly thirty-two hexadecimal digits, of either case.
#[verifier::external_body]
fn address_from_plain_hex(text: &str) -> (address: Option<Address>)
    ensures
        address == plain_hex_address(text@),
{
    match move_core_types::account_address::AccountAddress::from_hex(text) {
        Ok(parsed) => Some(Address { value: u128::from_be_bytes(parsed.into_bytes()) }),
        Err(_) => None,
    }
}

/// The lower-case hexadecimal digit of a value below sixteen.
pub open spec fn hex_digit(d: nat) -> char {
    if d < 10 {
        ('0' as nat + d) as char
    } else {
        ('a' as nat + d - 10) as char
    }
}

/// A number in hexadecimal digits of lower case, without leading zeros; zero is `0`.
pub open spec fn short_hex(n: nat) -> Seq<char>
    decreases n,
{
    if n < 16 {
        seq![hex_digit(n)]
    } else {
        short_hex(n / 16).push(hex_digit(n % 16))
    }
}

/// An address as a literal: `0x` and its short digits.
pub open spec fn address_text(address: Address) -> Seq<char> {
    "0x"@ + short_hex(address.value as nat)
}

/// Calls `short_str_lossless` of move-core-types' `AccountAddress`. Believed
/// without proof: it writes the address in hexadecimal digits of lower case
/// and strips the leading zeros, leaving `0` for the address zero.
#[verifier::external_body]
fn address_short_text(address: &Address) -> (text: String)
    ensures
        text@ == short_hex(address.value as nat),
{
    move_core_types::account_address::AccountAddress::new(address.value.to_be_bytes()).short_str_lossless()
}

impl Address {
    /// The address with the given bytes, read as one number.
    pub fn new(value: u128) -> (address: Address)
        ensures
            address.value == value,
    {
        Address { value }
    }

    /// Reads an address from its text: a literal, or thirty-two plain digits.
    pub fn parse(text: &str) -> (address: Option<Address>)
        ensures
            address == address_of_text(text@),
    {
        match address_from_hex_literal(text) {
            Some(address) => Some(address),
            None => address_from_plain_hex(text),
        }
    }

    /// The address in hexadecimal digits, without leading zeros.
    pub fn short_text(&self) -> (text: String)
        ensures
            text@ == short_hex(self.value as nat),
    {
        address_short_text(self)
    }

    /// The address as a literal.
    pub fn text(&self) -> (text: String)
        ensures
            text@ == address_text(*self),
    {
        String::from_str("0x").concat(address_short_text(self).as_str())
    }

    /// Whether two addresses have the same bytes.
    pub fn equals(&self, other: &Address) -> (same: bool)
        ensures
            same == (*self == *other),
    {
        self.value == other.value
    }
}

} // verus!
