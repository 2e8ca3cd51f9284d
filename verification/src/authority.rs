//! Authority derivation: the pure, deterministic mapping from an order's
//! identity to the non-human control authority of its vault.
//!
//! The derivation is a seeded hash over a fixed domain tag, the order
//! record's address and the program's identity. Nothing about an order's
//! authority is ever stored: cancel and exchange reproduce it from the
//! order identity alone and act under it, which is what makes the vault
//! unforgeable — no human key ever controls it after creation.

use vstd::prelude::*;
use anchor_lang::prelude::Pubkey;

verus! {

/// The control credential produced by authority derivation: an opaque
/// 256-bit ledger address, held as four 64-bit little-endian words.
#[derive(Clone, Copy, Debug, PartialEq, Eq, Hash, Structural)]
pub struct DerivedAuthority {
    pub w0: u64,
    pub w1: u64,
    pub w2: u64,
    pub w3: u64,
}

/// What the ledger's program-address derivation returns for a seed tag, an
/// order address and a program identity: the derived address as four
/// 64-bit words plus the bump that made it viable, or nothing when no bump
/// yields a viable address.
pub uninterp spec fn derivation_outcome(tag: Seq<u8>, order_key: u64, program_id: u64) -> Option<(u64, u64, u64, u64, u8)>;

/// The domain tag under which every vault authority is derived.
pub open spec fn vault_authority_tag() -> Seq<u8> {
    seq![
        118u8, 97u8, 117u8, 108u8, 116u8, 45u8, 97u8, 117u8, 116u8, 104u8, 111u8, 114u8,
        105u8, 116u8, 121u8,
    ]
}

/// The vault authority an order gets, if derivation succeeds for its
/// identity: the derivation outcome under the protocol's fixed domain tag.
pub open spec fn spec_vault_authority(order_key: u64, program_id: u64) -> Option<DerivedAuthority> {
    match derivation_outcome(vault_authority_tag(), order_key, program_id) {
        Some((w0, w1, w2, w3, _bump)) => Some(DerivedAuthority { w0, w1, w2, w3 }),
        None => None,
    }
}

/// The bytes of the protocol's derivation domain tag.
pub fn vault_authority_seed() -> (r: Vec<u8>)
    ensures
        r@ == vault_authority_tag(),
{
    let mut v: Vec<u8> = Vec::new();
    v.push(118u8);
    v.push(97u8);
    v.push(117u8);
    v.push(108u8);
    v.push(116u8);
    v.push(45u8);
    v.push(97u8);
    v.push(117u8);
    v.push(116u8);
    v.push(104u8);
    v.push(111u8);
    v.push(114u8);
    v.push(105u8);
    v.push(116u8);
    v.push(121u8);
    proof {
        assert(v@ =~= vault_authority_tag());
    }
    v
}

/// Relies on `Pubkey::try_find_program_address` (anchor_lang's re-export of
/// the ledger address type): off the ledger it is a pure function of the
/// seed slices and the program id — a SHA-256 of the seeds, the program id
/// and a fixed marker, retried over bump seeds until the result is off the
/// ed25519 curve — and it returns `None` only when no bump yields a viable
/// address. It never panics.
#[verifier::external_body]
fn find_program_authority(tag: &[u8], order_key: u64, program_id: u64) -> (r: Option<(DerivedAuthority, u8)>)
    ensures
        match r {
            Some(p) => derivation_outcome(tag@, order_key, program_id)
                == Some((p.0.w0, p.0.w1, p.0.w2, p.0.w3, p.1)),
            None => derivation_outcome(tag@, order_key, program_id) is None,
        },
{
    let mut pid = [0u8; 32];
    pid[..8].copy_from_slice(&program_id.to_le_bytes());
    let found = Pubkey::try_find_program_address(&[tag, &order_key.to_le_bytes()], &Pubkey::new_from_array(pid));
    match found {
        Some((addr, bump)) => {
            let b = addr.to_bytes();
            Some((DerivedAuthority {
                w0: u64::from_le_bytes(b[0..8].try_into().unwrap()),
                w1: u64::from_le_bytes(b[8..16].try_into().unwrap()),
                w2: u64::from_le_bytes(b[16..24].try_into().unwrap()),
                w3: u64::from_le_bytes(b[24..32].try_into().unwrap()),
            }, bump))
        },
        None => None,
    }
}

/// Derive the vault authority for an order: reproducible at any time from
/// the order's address and the program identity alone, with no stored
/// secret. Returns the authority and the bump seed that made it viable.
pub fn derive_vault_authority(order_key: u64, program_id: u64) -> (r: Option<(DerivedAuthority, u8)>)
    ensures
        match r {
            Some(p) => spec_vault_authority(order_key, program_id) == Some(p.0),
            None => spec_vault_authority(order_key, program_id) is None,
        },
{
    let tag = vault_authority_seed();
    find_program_authority(tag.as_slice(), order_key, program_id)
}

} // verus!
