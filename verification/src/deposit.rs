use vstd::prelude::*;

use crate::identity::PrincipalId;

verus! {

/// The lowercase hexadecimal digit for a value between 0 and 15.
pub open spec fn hex_digit_char(n: int) -> char
    recommends
        0 <= n < 16,
{
    if n == 0 {
        '0'
    } else if n == 1 {
        '1'
    } else if n == 2 {
        '2'
    } else if n == 3 {
        '3'
    } else if n == 4 {
        '4'
    } else if n == 5 {
        '5'
    } else if n == 6 {
        '6'
    } else if n == 7 {
        '7'
    } else if n == 8 {
        '8'
    } else if n == 9 {
        '9'
    } else if n == 10 {
        'a'
    } else if n == 11 {
        'b'
    } else if n == 12 {
        'c'
    } else if n == 13 {
        'd'
    } else if n == 14 {
        'e'
    } else {
        'f'
    }
}

/// Whether a character is a lowercase hexadecimal digit.
pub open spec fn is_hex_digit(c: char) -> bool {
    ||| c == '0'
    ||| c == '1'
    ||| c == '2'
    ||| c == '3'
    ||| c == '4'
    ||| c == '5'
    ||| c == '6'
    ||| c == '7'
    ||| c == '8'
    ||| c == '9'
    ||| c == 'a'
    ||| c == 'b'
    ||| c == 'c'
    ||| c == 'd'
    ||| c == 'e'
    ||| c == 'f'
}

/// The two lowercase hexadecimal digits of one byte, high digit first.
pub open spec fn hex_pair(b: u8) -> Seq<char> {
    seq![hex_digit_char(b as int / 16), hex_digit_char(b as int % 16)]
}

/// The lowercase hexadecimal rendering of a byte sequence, two digits per
/// byte.
pub open spec fn hex_of(bytes: Seq<u8>) -> Seq<char>
    decreases bytes.len(),
{
    if bytes.len() == 0 {
        Seq::empty()
    } else {
        hex_pair(bytes[0]) + hex_of(bytes.drop_first())
    }
}

/// The deposit sub-identity derived from an identity's bytes: a length byte,
/// the identity bytes themselves, then zero padding up to 32 bytes.
pub open spec fn derived_subaccount(p: Seq<u8>) -> Seq<u8>
    recommends
        p.len() <= 31,
{
    seq![p.len() as u8] + p + Seq::new((31 - p.len()) as nat, |i: int| 0u8)
}

/// The rendered deposit identifier: "0x" followed by the 64 hexadecimal
/// digits of the derived 32-byte sub-identity.
pub open spec fn deposit_hex(p: Seq<u8>) -> Seq<char> {
    seq!['0', 'x'] + hex_of(derived_subaccount(p))
}

proof fn lemma_hex_digit_char_is_hex(n: int)
    requires
        0 <= n < 16,
    ensures
        is_hex_digit(hex_digit_char(n)),
{
}

/// The hexadecimal rendering of a byte sequence has two characters per byte,
/// all of them lowercase hexadecimal digits.
pub proof fn lemma_hex_of_props(bytes: Seq<u8>)
    ensures
        hex_of(bytes).len() == 2 * bytes.len(),
        forall|i: int| 0 <= i < hex_of(bytes).len() ==> is_hex_digit(#[trigger] hex_of(bytes)[i]),
    decreases bytes.len(),
{
    if bytes.len() == 0 {
    } else {
        let rest = bytes.drop_first();
        lemma_hex_of_props(rest);
        lemma_hex_digit_char_is_hex(bytes[0] as int / 16);
        lemma_hex_digit_char_is_hex(bytes[0] as int % 16);
        assert forall|i: int| 0 <= i < hex_of(bytes).len() implies is_hex_digit(
            #[trigger] hex_of(bytes)[i],
        ) by {
            if i < 2 {
                assert(hex_of(bytes)[i] == hex_pair(bytes[0])[i]);
            } else {
                assert(hex_of(bytes)[i] == hex_of(rest)[i - 2]);
            }
        }
    }
}

/// The derived sub-identity of a well-formed identity is exactly 32 bytes.
pub proof fn lemma_derived_subaccount_len(p: Seq<u8>)
    requires
        p.len() <= 31,
    ensures
        derived_subaccount(p).len() == 32,
{
}

/// Relies on `b3_utils::Subaccount::from::<candid::Principal>`, the
/// registered identity-to-subaccount derivation: it writes the identity's
/// length into byte 0, the identity bytes into bytes 1.., and leaves the rest
/// zero. Also relies on `b3_utils::Subaccount::to_bytes32`, which hands those
/// 32 bytes back whenever the length byte is between 1 and 29 — which the
/// precondition guarantees — and on `candid::Principal::from_slice`, which
/// carries the argument bytes over unchanged.
#[verifier::external_body]
fn derive_subaccount_bytes(p: &PrincipalId) -> (r: Vec<u8>)
    requires
        p.wf(),
    ensures
        r@ == derived_subaccount(p.bytes@),
{
    let principal = candid::Principal::from_slice(p.bytes.as_slice());
    let subaccount = b3_utils::Subaccount::from(principal);
    let bytes32 = subaccount.to_bytes32().expect("a well-formed identity always derives 32 bytes");
    bytes32.to_vec()
}

/// Relies on `b3_utils::vec_to_hex_string_with_0x`: "0x" followed by the
/// lowercase hexadecimal digits of the bytes, two per byte (it formats with
/// `hex::encode`, whose digit table is `0123456789abcdef`).
#[verifier::external_body]
fn hex_string_with_0x(bytes: &Vec<u8>) -> (r: String)
    ensures
        r@ == seq!['0', 'x'] + hex_of(bytes@),
{
    b3_utils::vec_to_hex_string_with_0x(bytes)
}

/// The 32-byte deposit sub-identity for an identity, as bytes.
pub fn derive_deposit_subaccount(owner: &PrincipalId) -> (r: Vec<u8>)
    requires
        owner.wf(),
    ensures
        r@ == derived_subaccount(owner.bytes@),
        r@.len() == 32,
{
    proof {
        lemma_derived_subaccount_len(owner.bytes@);
    }
    derive_subaccount_bytes(owner)
}

/// The deposit identifier for an identity, rendered as "0x" followed by
/// exactly 64 lowercase hexadecimal digits.
pub fn canister_deposit_principal(owner: &PrincipalId) -> (r: String)
    requires
        owner.wf(),
    ensures
        r@ == deposit_hex(owner.bytes@),
        r@.len() == 66,
        r@[0] == '0',
        r@[1] == 'x',
        forall|i: int| 2 <= i < r@.len() ==> is_hex_digit(#[trigger] r@[i]),
{
    let subaccount = derive_deposit_subaccount(owner);
    let rendered = hex_string_with_0x(&subaccount);
    proof {
        let derived = derived_subaccount(owner.bytes@);
        lemma_derived_subaccount_len(owner.bytes@);
        lemma_hex_of_props(derived);
        assert(rendered@.len() == 66);
        assert(rendered@[0] == seq!['0', 'x'][0]);
        assert(rendered@[1] == seq!['0', 'x'][1]);
        assert forall|i: int| 2 <= i < rendered@.len() implies is_hex_digit(
            #[trigger] rendered@[i],
        ) by {
            assert(rendered@[i] == hex_of(derived)[i - 2]);
        }
    }
    rendered
}

/// Law: the deposit derivation is deterministic. Two derivations from the
/// same identity bytes yield the same sub-identity bytes and the same
/// rendered identifier.
pub proof fn lemma_deposit_derivation_deterministic(
    p: Seq<u8>,
    s1: Seq<u8>,
    s2: Seq<u8>,
    r1: Seq<char>,
    r2: Seq<char>,
)
    requires
        s1 == derived_subaccount(p),
        s2 == derived_subaccount(p),
        r1 == deposit_hex(p),
        r2 == deposit_hex(p),
    ensures
        s1 == s2,
        r1 == r2,
{
}

} // verus!
