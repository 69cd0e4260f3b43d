use vstd::prelude::*;

use starknet_api::hash::StarkFelt;
use starknet_api::StarknetApiError;

use crate::felt::{felt_int, Felt};

verus! {

#[verifier::external_type_specification]
#[verifier::external_body]
pub struct ExStarknetApiError(StarknetApiError);

/// `s` without its leading `0x` prefixes, however many there are.
pub open spec fn strip_hex_prefixes(s: Seq<char>) -> Seq<char>
    decreases s.len(),
{
    if s.len() >= 2 && s[0] == '0' && s[1] == 'x' {
        strip_hex_prefixes(s.subrange(2, s.len() as int))
    } else {
        s
    }
}

pub open spec fn is_hex_digit(c: char) -> bool {
    ('0' <= c && c <= '9') || ('a' <= c && c <= 'f') || ('A' <= c && c <= 'F')
}

pub open spec fn hex_digit_value(c: char) -> int {
    if '0' <= c && c <= '9' {
        c as int - '0' as int
    } else if 'a' <= c && c <= 'f' {
        c as int - 'a' as int + 10
    } else {
        c as int - 'A' as int + 10
    }
}

/// The number that a string of hexadecimal digits spells.
pub open spec fn hex_value(s: Seq<char>) -> int
    decreases s.len(),
{
    if s.len() == 0 {
        0
    } else {
        hex_value(s.drop_last()) * 16 + hex_digit_value(s.last())
    }
}

/// `s`, once stripped of its `0x` prefixes, is at most 64 hexadecimal digits
/// whose value has a zero top nibble in 32 bytes.
pub open spec fn parses_as_felt(s: Seq<char>) -> bool {
    let t = strip_hex_prefixes(s);
    &&& t.len() <= 64
    &&& forall|i: int| 0 <= i < t.len() ==> is_hex_digit(#[trigger] t[i])
    &&& hex_value(t) < vstd::arithmetic::power2::pow2(252)
}

/// A string of `n` hexadecimal digits spells a number below 2^(4n).
pub proof fn lemma_hex_value_bound(s: Seq<char>)
    requires
        forall|i: int| 0 <= i < s.len() ==> is_hex_digit(#[trigger] s[i]),
    ensures
        0 <= hex_value(s) < vstd::arithmetic::power2::pow2(4 * s.len() as nat),
    decreases s.len(),
{
    if s.len() == 0 {
        vstd::arithmetic::power2::lemma2_to64();
    } else {
        let init = s.drop_last();
        assert forall|i: int| 0 <= i < init.len() implies is_hex_digit(#[trigger] init[i]) by {
            assert(init[i] == s[i]);
        }
        lemma_hex_value_bound(init);
        assert(is_hex_digit(s[s.len() - 1]));
        let n = (4 * init.len()) as nat;
        vstd::arithmetic::power2::lemma2_to64();
        vstd::arithmetic::power2::lemma_pow2_adds(n, 4);
        assert(4 * s.len() == n + 4);
        let h = hex_value(init);
        let d = hex_digit_value(s.last());
        let p = vstd::arithmetic::power2::pow2(n) as int;
        assert(h * 16 + d < p * 16) by (nonlinear_arith)
            requires
                0 <= h < p,
                0 <= d < 16,
        ;
    }
}

/// Relies on `StarkFelt::try_from(&str)`: it strips leading `0x` prefixes,
/// decodes up to 64 hex digits big-endian into 32 bytes, and refuses a value
/// whose top nibble is not zero.
#[verifier::external_body]
pub(crate) fn parse_felt(s: &str) -> (r: Result<Felt, StarknetApiError>)
    ensures
        r is Ok <==> parses_as_felt(s@),
        r is Ok ==> felt_int(r->Ok_0.bytes@) == hex_value(strip_hex_prefixes(s@)),
{
    let f = StarkFelt::try_from(s)?;
    let mut bytes = [0u8; 32];
    bytes.copy_from_slice(f.bytes());
    Ok(Felt { bytes })
}

} // verus!
