//! Deterministic test-key derivation, done by the `sp_core` cryptography
//! crate. A seed name such as `Alice` stands for the secret URI `//Alice`;
//! hard derivation from such a URI always yields the same key pair, so the
//! public keys are functions of the seed name alone and are given names
//! here that the chain-specification contracts speak of.

use vstd::prelude::*;

use sp_core::ByteArray;
use sp_core::Pair;

verus! {

/// An ASCII letter or digit.
pub open spec fn is_alnum(c: char) -> bool {
    ('a' <= c && c <= 'z') || ('A' <= c && c <= 'Z') || ('0' <= c && c <= '9')
}

/// A seed name made of one or more alphanumeric segments joined by `//`:
/// it starts and ends with a letter or digit, holds nothing but letters,
/// digits and slashes, and every slash has exactly one slash beside it, so
/// slashes come only in pairs. Such a name turns into a secret URI of hard
/// junctions only, which key derivation always accepts.
pub open spec fn hard_seed(s: Seq<char>) -> bool {
    &&& s.len() > 0
    &&& is_alnum(s.first())
    &&& is_alnum(s.last())
    &&& forall|i: int| 0 <= i < s.len() ==> is_alnum(#[trigger] s[i]) || s[i] == '/'
    &&& forall|i: int|
        0 < i < s.len() - 1 && #[trigger] s[i] == '/' ==> ((s[i - 1] == '/') != (s[i + 1] == '/'))
}

/// The 32-byte sr25519 public key that hard derivation yields for a seed
/// name.
pub uninterp spec fn sr25519_public_of(seed: Seq<char>) -> Seq<u8>;

/// The 32-byte ed25519 public key that hard derivation yields for a seed
/// name.
pub uninterp spec fn ed25519_public_of(seed: Seq<char>) -> Seq<u8>;

/// Relies on `sp_core::sr25519::Pair::from_string` and
/// `sp_core::crypto::Pair::public`: derivation from the secret URI
/// `//<seed>` is a function of the seed string alone, and the public key of
/// an sr25519 pair is 32 bytes. For a `hard_seed` the call succeeds: the
/// address-URI parser reads `//<seed>` as hard junctions over the built-in
/// development phrase, which is a valid mnemonic, and sr25519 derivation
/// has no failing case.
#[verifier::external_body]
pub fn sr25519_public_from_seed(seed: &str) -> (r: Option<Vec<u8>>)
    ensures
        r matches Some(v) ==> v@ == sr25519_public_of(seed@) && v@.len() == 32,
        hard_seed(seed@) ==> r is Some,
{
    match sp_core::sr25519::Pair::from_string(&format!("//{}", seed), None) {
        Ok(pair) => Some(pair.public().to_raw_vec()),
        Err(_) => None,
    }
}

/// Relies on `sp_core::ed25519::Pair::from_string` and
/// `sp_core::crypto::Pair::public`: derivation from the secret URI
/// `//<seed>` is a function of the seed string alone, and the public key of
/// an ed25519 pair is 32 bytes. For a `hard_seed` the call succeeds: the
/// address-URI parser reads `//<seed>` as hard junctions over the built-in
/// development phrase, which is a valid mnemonic, and ed25519 derivation
/// fails only on a soft junction, which a `hard_seed` never produces.
#[verifier::external_body]
pub fn ed25519_public_from_seed(seed: &str) -> (r: Option<Vec<u8>>)
    ensures
        r matches Some(v) ==> v@ == ed25519_public_of(seed@) && v@.len() == 32,
        hard_seed(seed@) ==> r is Some,
{
    match sp_core::ed25519::Pair::from_string(&format!("//{}", seed), None) {
        Ok(pair) => Some(pair.public().to_raw_vec()),
        Err(_) => None,
    }
}

} // verus!
