use vstd::prelude::*;

verus! {

/// The modulus of the field in which account identifiers live.
pub const FIELD_MODULUS: u64 = 0xffff_ffff_0000_0001;

pub open spec fn is_hex_digit(c: char) -> bool {
    ('0' <= c && c <= '9') || ('a' <= c && c <= 'f') || ('A' <= c && c <= 'F')
}

pub open spec fn hex_digit_value(c: char) -> int {
    if '0' <= c && c <= '9' {
        c as int - '0' as int
    } else if 'a' <= c && c <= 'f' {
        c as int - 'a' as int + 10
    } else {
        c as int - 'A' as int + 10
    }
}

/// The number that a string of hexadecimal digits denotes, most significant first.
pub open spec fn hex_value(s: Seq<char>) -> int
    decreases s.len(),
{
    if s.len() == 0 {
        0
    } else {
        hex_value(s.drop_last()) * 16 + hex_digit_value(s.last())
    }
}

/// A `0x`-prefixed string of sixteen hexadecimal digits.
pub open spec fn is_id_hex(s: Seq<char>) -> bool {
    &&& s.len() == 18
    &&& s[0] == '0'
    &&& s[1] == 'x'
    &&& forall|i: int| 2 <= i < 18 ==> is_hex_digit(#[trigger] s[i])
}

/// The two most significant bits of an identifier give its storage mode:
/// `0b00` public, `0b10` private; the other two patterns are invalid.
pub open spec fn storage_bits_valid(v: u64) -> bool {
    (v >> 62u64) == 0 || (v >> 62u64) == 2
}

pub open spec fn is_public_id(v: u64) -> bool {
    (v >> 62u64) == 0
}

/// The number of one-bits in `v`.
pub open spec fn ones(v: u64) -> nat
    decreases v,
{
    if v == 0 {
        0
    } else {
        (v % 2) as nat + ones(v / 2)
    }
}

/// The fewest one-bits an identifier has.
pub const MIN_ACCOUNT_ONES: u64 = 5;

/// A value that is a valid identifier: a field element with valid storage
/// bits and at least `MIN_ACCOUNT_ONES` one-bits.
pub open spec fn id_value_ok(v: u64) -> bool {
    &&& v < FIELD_MODULUS
    &&& storage_bits_valid(v)
    &&& ones(v) >= MIN_ACCOUNT_ONES
}

/// The identifier a well-formed hex string denotes, if it denotes a valid one.
pub open spec fn parsed_id(s: Seq<char>) -> Option<u64> {
    if is_id_hex(s) && id_value_ok(hex_value(s.subrange(2, 18)) as u64) {
        Some(hex_value(s.subrange(2, 18)) as u64)
    } else {
        None
    }
}

/// Bits 60 and 61 give the account type; `0b10` is a fungible faucet.
pub open spec fn is_fungible_faucet_id(v: u64) -> bool {
    ((v >> 60u64) & 3) == 2
}

/// Relies on miden_objects' `AccountId::from_hex`: it accepts exactly `0x` followed
/// by sixteen hex digits, read most significant first, whose value is below the
/// field modulus, has valid storage bits and at least five one-bits.
#[verifier::external_body]
fn parse_account_hex(s: &str) -> (r: Option<u64>)
    ensures
        r == parsed_id(s@),
{
    miden_objects::accounts::AccountId::from_hex(s).ok().map(u64::from)
}

/// A fixed-width account identifier; equality is exact.
#[derive(Clone, Copy, Debug, PartialEq, Eq, Structural)]
pub struct AccountId {
    pub value: u64,
}

#[derive(Clone, Copy, Debug, PartialEq, Eq, Structural)]
pub enum IdError {
    MalformedIdentifier,
}

impl AccountId {
    pub open spec fn wf(self) -> bool {
        id_value_ok(self.value)
    }

    /// Parses a `0x`-prefixed hexadecimal identifier.
    pub fn from_hex(s: &str) -> (r: Result<AccountId, IdError>)
        ensures
            parsed_id(s@) matches Some(v) ==> r == Ok::<AccountId, IdError>(AccountId { value: v }),
            parsed_id(s@) is None ==> r == Err::<AccountId, IdError>(IdError::MalformedIdentifier),
            r matches Ok(id) ==> id.wf(),
    {
        match parse_account_hex(s) {
            Some(v) => Ok(AccountId { value: v }),
            None => Err(IdError::MalformedIdentifier),
        }
    }

    pub fn is_public(&self) -> (r: bool)
        ensures
            r == is_public_id(self.value),
    {
        (self.value >> 62u64) == 0
    }
}

} // verus!
