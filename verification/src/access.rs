//! Authorization policy: which signer may perform which operation on a
//! miner record.
//!
//! The policy is a set of pure predicates over an explicit (signer,
//! record) pair, so it can be stated and tested independently of where
//! records are stored.

use vstd::prelude::*;

use crate::identifier::Identifier;
use crate::miner::MinerInfo;
use crate::miner::MinerInfoView;

verus! {

/// The signer may rotate the miner's keys: only the owner may.
pub open spec fn can_manage_keys_spec(signer: Seq<u8>, record: MinerInfoView) -> bool {
    signer == record.owner
}

/// The signer may update the peer identifier: the owner, the worker, or
/// any controller may.
pub open spec fn can_update_peer_spec(signer: Seq<u8>, record: MinerInfoView) -> bool {
    signer == record.owner || signer == record.worker || record.controllers.contains(signer)
}

/// The signer may propose a new owner: only the owner may.
pub open spec fn can_propose_owner_spec(signer: Seq<u8>, record: MinerInfoView) -> bool {
    signer == record.owner
}

/// The signer may confirm the pending owner change: only the proposed
/// owner may, and only by proposing that same address again.
pub open spec fn can_confirm_owner_spec(
    signer: Seq<u8>,
    record: MinerInfoView,
    proposed: Seq<u8>,
) -> bool {
    record.pending_owner matches Some(p) && signer == p && proposed == p
}

/// Whether `signer` may rotate the miner's keys.
pub fn can_manage_keys(signer: &Identifier, record: &MinerInfo) -> (r: bool)
    ensures
        r == can_manage_keys_spec(signer@, record@),
{
    signer.equals(&record.owner)
}

/// Whether `signer` may update the miner's peer identifier.
pub fn can_update_peer(signer: &Identifier, record: &MinerInfo) -> (r: bool)
    ensures
        r == can_update_peer_spec(signer@, record@),
{
    if signer.equals(&record.owner) || signer.equals(&record.worker) {
        return true;
    }
    let n = record.controllers.len();
    let mut i: usize = 0;
    while i < n
        invariant
            n == record.controllers.len(),
            i <= n,
            forall|j: int| 0 <= j < i ==> (#[trigger] record.controllers@[j])@ != signer@,
        decreases n - i,
    {
        if record.controllers[i].equals(signer) {
            proof {
                assert(record@.controllers[i as int] == signer@);
            }
            return true;
        }
        i += 1;
    }
    proof {
        assert forall|j: int|
            0 <= j < record@.controllers.len() implies record@.controllers[j] != signer@ by {
            assert(record@.controllers[j] == record.controllers@[j]@);
        }
    }
    false
}

/// Whether `signer` may propose a new owner.
pub fn can_propose_owner(signer: &Identifier, record: &MinerInfo) -> (r: bool)
    ensures
        r == can_propose_owner_spec(signer@, record@),
{
    signer.equals(&record.owner)
}

/// Whether `signer` may confirm the pending owner change by proposing
/// `proposed`.
pub fn can_confirm_owner(signer: &Identifier, record: &MinerInfo, proposed: &Identifier) -> (r:
    bool)
    ensures
        r == can_confirm_owner_spec(signer@, record@, proposed@),
{
    match &record.pending_owner {
        Some(p) => signer.equals(p) && proposed.equals(p),
        None => false,
    }
}

} // verus!
