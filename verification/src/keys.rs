//! Keypair generation and address rendering, supplied by the chain SDK.
//!
//! A keypair is carried as its 64-byte encoding: the 32-byte secret seed
//! followed by the 32-byte public key. The textual address of a keypair is
//! the base58 rendering of its public key; `base58_of` names that rendering,
//! and every trusted wrapper below speaks of keypairs through these plain
//! byte values.

use vstd::prelude::*;

verus! {

/// The base58 rendering of a 32-byte public key, as a byte string.
/// It is a function of the key bytes alone.
pub uninterp spec fn base58_of(public_key: Seq<u8>) -> Seq<u8>;

/// Relies on solana_sdk's `Keypair::new` (a fresh random keypair from the
/// system's cryptographic randomness) and `Keypair::to_bytes` (its 64-byte
/// encoding: 32 secret bytes, then 32 public-key bytes). The result is
/// random: nothing beyond its length holds of every outcome.
#[verifier::external_body]
fn generate_keypair_bytes() -> (b: Vec<u8>)
    ensures
        b@.len() == 64,
{
    solana_sdk::signature::Keypair::new().to_bytes().to_vec()
}

/// Relies on solana_sdk's `Pubkey` `Display` impl, which writes the base58
/// rendering of the 32 key bytes; `Pubkey::try_from` on a slice fails only
/// when the slice is not 32 bytes long, which the precondition rules out.
#[verifier::external_body]
fn render_address(public_key: &[u8]) -> (r: Vec<u8>)
    requires
        public_key@.len() == 32,
    ensures
        r@ == base58_of(public_key@),
{
    solana_sdk::pubkey::Pubkey::try_from(public_key).unwrap().to_string().into_bytes()
}

/// Relies on solana_sdk's `keypair_from_seed`: it returns a keypair exactly
/// when the seed holds at least 32 bytes, and that keypair's secret half is
/// the first 32 bytes of the seed.
#[verifier::external_body]
fn keypair_bytes_from_seed(seed: &[u8]) -> (r: Option<Vec<u8>>)
    ensures
        r is Some <==> seed@.len() >= 32,
        r matches Some(b) ==> b@.len() == 64 && b@.subrange(0, 32) == seed@.subrange(0, 32),
{
    solana_sdk::signature::keypair_from_seed(seed).ok().map(|k| k.to_bytes().to_vec())
}

/// One randomly generated keypair, kept as plain bytes together with the
/// textual address of its public key.
pub struct Candidate {
    /// The 64-byte keypair encoding: secret seed, then public key.
    pub key_bytes: Vec<u8>,
    /// The base58 address of the public key, as bytes.
    pub address: Vec<u8>,
}

impl Candidate {
    /// The public-key half of the keypair bytes.
    pub open spec fn public_key(&self) -> Seq<u8> {
        self.key_bytes@.subrange(32, 64)
    }

    /// The secret half of the keypair bytes.
    pub open spec fn secret_seed(&self) -> Seq<u8> {
        self.key_bytes@.subrange(0, 32)
    }

    /// A candidate is well formed when it holds a full keypair encoding and
    /// its address is the base58 rendering of its public key.
    pub open spec fn wf(&self) -> bool {
        &&& self.key_bytes@.len() == 64
        &&& self.address@ == base58_of(self.public_key())
    }

    /// Draw one fresh random keypair and render its address.
    pub fn generate() -> (c: Candidate)
        ensures
            c.wf(),
    {
        let key_bytes = generate_keypair_bytes();
        let address = render_address(vstd::slice::slice_subrange(key_bytes.as_slice(), 32, 64));
        Candidate { key_bytes, address }
    }
}

/// The base58 address of a 32-byte public key; `None` when the key has the
/// wrong length.
pub fn address_for_public_key(public_key: &Vec<u8>) -> (r: Option<Vec<u8>>)
    ensures
        r is Some <==> public_key@.len() == 32,
        r matches Some(a) ==> a@ == base58_of(public_key@),
{
    if public_key.len() == 32 {
        Some(render_address(public_key.as_slice()))
    } else {
        None
    }
}

/// Recover a keypair from seed entropy: the 64-byte keypair encoding, or
/// `None` when the seed holds fewer than 32 bytes.
pub fn derive_keypair(seed: &Vec<u8>) -> (r: Option<Vec<u8>>)
    ensures
        r is Some <==> seed@.len() >= 32,
        r matches Some(b) ==> b@.len() == 64 && b@.subrange(0, 32) == seed@.subrange(0, 32),
{
    keypair_bytes_from_seed(seed.as_slice())
}

} // verus!
