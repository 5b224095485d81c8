//! The call data that selects a test function, and the deployed code of a
//! compiled test contract as its artifact spells it in hex.
use vstd::prelude::*;
use vstd::string::StringSliceAdditionalSpecFns;

verus! {

/// The Keccak-256 digest of a byte string, 32 bytes long.
pub uninterp spec fn keccak256_of(data: Seq<u8>) -> Seq<u8>;

/// Relies on revm::primitives::keccak256 (alloy-primitives): the Keccak-256
/// digest of `data`, a function of its bytes alone.
#[verifier::external_body]
fn keccak256(data: &[u8]) -> (r: [u8; 32])
    ensures
        r@ == keccak256_of(data@),
{
    revm::primitives::keccak256(data).0
}

/// The function selector for `signature`: the first four bytes of the
/// Keccak-256 digest of its UTF-8 bytes.
pub fn compute_selector(signature: &str) -> (r: Vec<u8>)
    ensures
        r@ == keccak256_of(signature.spec_bytes()).subrange(0, 4),
{
    let hash = keccak256(signature.as_bytes());
    let mut r: Vec<u8> = Vec::new();
    let mut i: usize = 0;
    while i < 4
        invariant
            i <= 4,
            hash@.len() == 32,
            r@ == hash@.subrange(0, i as int),
        decreases 4 - i,
    {
        r.push(hash[i]);
        proof {
            assert(r@ =~= hash@.subrange(0, i + 1));
        }
        i = i + 1;
    }
    r
}

#[verifier::external_type_specification]
pub struct ExFromHexError(hex::FromHexError);

/// Whether `c` is an ASCII hex digit of either case.
pub open spec fn is_hex_digit(c: u8) -> bool {
    (0x30 <= c <= 0x39) || (0x41 <= c <= 0x46) || (0x61 <= c <= 0x66)
}

/// The value of the hex digit `c`.
pub open spec fn hex_digit_value(c: u8) -> int {
    if 0x30 <= c <= 0x39 {
        c - 0x30
    } else if 0x41 <= c <= 0x46 {
        c - 0x41 + 10
    } else {
        c - 0x61 + 10
    }
}

/// Every byte of `s` is a hex digit.
pub open spec fn all_hex_digits(s: Seq<u8>) -> bool {
    forall|i: int| 0 <= i < s.len() ==> is_hex_digit(#[trigger] s[i])
}

/// `i` is the position of the first byte of `s` that is not a hex digit.
pub open spec fn first_non_hex(s: Seq<u8>, i: int) -> bool {
    0 <= i < s.len() && !is_hex_digit(s[i]) && forall|j: int| 0 <= j < i ==> is_hex_digit(
        #[trigger] s[j],
    )
}

/// The bytes spelled by the digit pairs of `s`, high digit first.
pub open spec fn hex_bytes(s: Seq<u8>) -> Seq<u8> {
    Seq::new(
        s.len() / 2,
        |i: int| (16 * hex_digit_value(s[2 * i]) + hex_digit_value(s[2 * i + 1])) as u8,
    )
}

/// `e` reports the first byte of `s` that is no hex digit, at its position.
pub open spec fn reports_first_non_hex(e: hex::FromHexError, s: Seq<u8>) -> bool {
    match e {
        hex::FromHexError::InvalidHexCharacter { index, .. } => first_non_hex(s, index as int),
        _ => false,
    }
}

/// What decoding hex text gives.
pub type HexDecoded = Result<Vec<u8>, hex::FromHexError>;

/// Relies on hex::decode: an odd length is refused first; otherwise each
/// pair of digits, read in order, is one byte, and the first byte that is no
/// hex digit is reported with its position.
#[verifier::external_body]
fn decode_hex(s: &[u8]) -> (r: HexDecoded)
    ensures
        s@.len() % 2 == 1 ==> (r matches Err(hex::FromHexError::OddLength)),
        s@.len() % 2 == 0 && all_hex_digits(s@) ==> r is Ok && r->Ok_0@ == hex_bytes(s@),
        s@.len() % 2 == 0 && !all_hex_digits(s@) ==> r is Err && reports_first_non_hex(
            r->Err_0,
            s@,
        ),
{
    hex::decode(s)
}

/// Why the deployed code of an artifact could not be read.
#[derive(Clone, Copy, Debug, PartialEq, Eq, Structural)]
pub enum ArtifactError {
    /// The hex text has an odd number of digits.
    OddLength,
    /// The byte at `index` of the hex text, after any `0x` prefix, is no hex digit.
    InvalidHexCharacter { index: usize },
}

/// The hex text of `object` with a leading `0x` removed, if it has one.
pub open spec fn without_hex_prefix(object: Seq<u8>) -> Seq<u8> {
    if object.len() >= 2 && object[0] == 0x30 && object[1] == 0x78 {
        object.subrange(2, object.len() as int)
    } else {
        object
    }
}

/// Decodes the deployed code of a contract from the hex text that its
/// compiled artifact holds, with or without a `0x` prefix.
pub fn decode_deployed_code(object: &str) -> (r: Result<Vec<u8>, ArtifactError>)
    ensures
        ({
            let digits = without_hex_prefix(object.spec_bytes());
            &&& digits.len() % 2 == 1 ==> r == Err::<Vec<u8>, ArtifactError>(
                ArtifactError::OddLength,
            )
            &&& digits.len() % 2 == 0 && all_hex_digits(digits) ==> r is Ok && r->Ok_0@
                == hex_bytes(digits)
            &&& digits.len() % 2 == 0 && !all_hex_digits(digits) ==> (r matches Err(
                ArtifactError::InvalidHexCharacter { index },
            ) && first_non_hex(digits, index as int))
        }),
{
    let bytes = object.as_bytes();
    let digits = if bytes.len() >= 2 && bytes[0] == 0x30 && bytes[1] == 0x78 {
        vstd::slice::slice_subrange(bytes, 2, bytes.len())
    } else {
        bytes
    };
    match decode_hex(digits) {
        Ok(code) => Ok(code),
        Err(hex::FromHexError::InvalidHexCharacter { index, .. }) => Err(
            ArtifactError::InvalidHexCharacter { index },
        ),
        Err(_) => Err(ArtifactError::OddLength),
    }
}

} // verus!
