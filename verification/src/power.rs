//! The power registry: per-miner storage-power claims and the global
//! aggregates.

use vstd::prelude::*;

use crate::error::Error;
use crate::identifier::Identifier;
use crate::store;
use crate::store::entries_map;

verus! {

/// A miner's claimed storage power: raw bytes stored, and the
/// quality-adjusted figure derived from them when storage is committed.
/// The two magnitudes are independent; updates apply a signed delta to
/// each.
#[derive(Debug, PartialEq, Eq, Structural, Clone, Copy)]
pub struct Claim {
    /// Raw bytes stored by the miner.
    pub raw_bytes_power: u128,
    /// Raw bytes weighted by sector quality.
    pub quality_adjusted_power: u128,
}

impl View for Claim {
    type V = Claim;

    open spec fn view(&self) -> Claim {
        *self
    }
}

/// The zero claim every miner starts with.
pub open spec fn default_claim() -> Claim {
    Claim { raw_bytes_power: 0, quality_adjusted_power: 0 }
}

impl Default for Claim {
    fn default() -> (r: Claim)
        ensures
            r == default_claim(),
    {
        Claim { raw_bytes_power: 0, quality_adjusted_power: 0 }
    }
}

/// The abstract state of the power registry: the claims by miner
/// identity, and the global aggregates.
#[verifier::ext_equal]
pub struct PowerRegistryView {
    pub claims: Map<Seq<u8>, Claim>,
    pub miner_count: u64,
    pub total_raw_bytes_power: u128,
}

/// What registering a new miner does: it fails only when the miner-count
/// aggregate would overflow; otherwise it binds the zero claim to the
/// miner's identity (overwriting any claim already there — callers must
/// guarantee key freshness through the index allocator) and increments
/// the count.
pub open spec fn register_outcome(pre: PowerRegistryView, miner: Seq<u8>) -> Result<
    (PowerRegistryView, Claim),
    Error,
> {
    if pre.miner_count < u64::MAX {
        Ok(
            (
                PowerRegistryView {
                    claims: pre.claims.insert(miner, default_claim()),
                    miner_count: (pre.miner_count + 1) as u64,
                    ..pre
                },
                default_claim(),
            ),
        )
    } else {
        Err(Error::ClaimsNotSet)
    }
}

/// A signed delta applied to an unsigned magnitude: defined exactly when
/// the result neither underflows below zero nor overflows the magnitude's
/// range.
pub open spec fn apply_delta(v: u128, d: i128) -> Option<u128> {
    if 0 <= v + d && v + d <= u128::MAX {
        Some((v + d) as u128)
    } else {
        None
    }
}

/// What updating a claim does: it fails with `NoSuchClaim` on an unknown
/// identity and with `Overflow` when either claim magnitude or the global
/// raw-power aggregate would leave its range; otherwise both deltas are
/// applied to the claim and the raw delta to the aggregate, atomically.
pub open spec fn update_outcome(
    pre: PowerRegistryView,
    miner: Seq<u8>,
    raw_bytes_delta: i128,
    quality_adjusted_delta: i128,
) -> Result<(PowerRegistryView, Claim), Error> {
    if !pre.claims.contains_key(miner) {
        Err(Error::NoSuchClaim)
    } else {
        let c = pre.claims[miner];
        let nr = apply_delta(c.raw_bytes_power, raw_bytes_delta);
        let nq = apply_delta(c.quality_adjusted_power, quality_adjusted_delta);
        let nt = apply_delta(pre.total_raw_bytes_power, raw_bytes_delta);
        if nr is Some && nq is Some && nt is Some {
            let updated = Claim {
                raw_bytes_power: nr.unwrap(),
                quality_adjusted_power: nq.unwrap(),
            };
            Ok(
                (
                    PowerRegistryView {
                        claims: pre.claims.insert(miner, updated),
                        total_raw_bytes_power: nt.unwrap(),
                        ..pre
                    },
                    updated,
                ),
            )
        } else {
            Err(Error::Overflow)
        }
    }
}

/// Per-miner claims and the global power aggregates.
pub struct PowerRegistry {
    claims: Vec<(Identifier, Claim)>,
    miner_count: u64,
    total_raw_bytes_power: u128,
}

impl View for PowerRegistry {
    type V = PowerRegistryView;

    closed spec fn view(&self) -> PowerRegistryView {
        PowerRegistryView {
            claims: entries_map(self.claims@),
            miner_count: self.miner_count,
            total_raw_bytes_power: self.total_raw_bytes_power,
        }
    }
}

impl PowerRegistry {
    /// An empty registry: no claims, zero aggregates.
    pub fn new() -> (r: PowerRegistry)
        ensures
            r@.claims == Map::<Seq<u8>, Claim>::empty(),
            r@.miner_count == 0,
            r@.total_raw_bytes_power == 0,
    {
        let r = PowerRegistry { claims: Vec::new(), miner_count: 0, total_raw_bytes_power: 0 };
        proof {
            store::lemma_entries_map_empty::<Claim>();
        }
        r
    }

    /// There is room for one more miner in the aggregate count.
    pub fn can_register(&self) -> (r: bool)
        ensures
            r == (self@.miner_count < u64::MAX),
    {
        self.miner_count < u64::MAX
    }

    /// Registers a new miner with the zero claim.
    pub fn register_new_miner(&mut self, miner: &Identifier) -> (r: Result<Claim, Error>)
        ensures
            match register_outcome(old(self)@, miner@) {
                Ok((post, c)) => final(self)@ == post && r == Ok::<Claim, Error>(c),
                Err(e) => final(self)@ == old(self)@ && r == Err::<Claim, Error>(e),
            },
    {
        if self.miner_count == u64::MAX {
            return Err(Error::ClaimsNotSet);
        }
        let claim = Claim::default();
        store::insert_entry(&mut self.claims, miner.clone(), claim);
        self.miner_count = self.miner_count + 1;
        Ok(claim)
    }

    /// Applies signed deltas to a miner's claim and the raw delta to the
    /// global aggregate, failing without any change when the claim is
    /// unknown or any magnitude would leave its range.
    pub fn update_claim(
        &mut self,
        miner: &Identifier,
        raw_bytes_delta: i128,
        quality_adjusted_delta: i128,
    ) -> (r: Result<Claim, Error>)
        ensures
            match update_outcome(old(self)@, miner@, raw_bytes_delta, quality_adjusted_delta) {
                Ok((post, c)) => final(self)@ == post && r == Ok::<Claim, Error>(c),
                Err(e) => final(self)@ == old(self)@ && r == Err::<Claim, Error>(e),
            },
    {
        let i = match store::find_key(&self.claims, miner) {
            Some(i) => i,
            None => {
                return Err(Error::NoSuchClaim);
            },
        };
        let c = self.claims[i].1;
        let nr = match c.raw_bytes_power.checked_add_signed(raw_bytes_delta) {
            Some(v) => v,
            None => {
                return Err(Error::Overflow);
            },
        };
        let nq = match c.quality_adjusted_power.checked_add_signed(quality_adjusted_delta) {
            Some(v) => v,
            None => {
                return Err(Error::Overflow);
            },
        };
        let nt = match self.total_raw_bytes_power.checked_add_signed(raw_bytes_delta) {
            Some(v) => v,
            None => {
                return Err(Error::Overflow);
            },
        };
        let updated = Claim { raw_bytes_power: nr, quality_adjusted_power: nq };
        store::insert_entry(&mut self.claims, miner.clone(), updated);
        self.total_raw_bytes_power = nt;
        Ok(updated)
    }

    /// The claim registered under `miner`, if any.
    pub fn claims(&self, miner: &Identifier) -> (r: Option<Claim>)
        ensures
            match r {
                Some(c) => self@.claims.contains_key(miner@) && c == self@.claims[miner@],
                None => !self@.claims.contains_key(miner@),
            },
    {
        match store::find_key(&self.claims, miner) {
            Some(i) => Some(self.claims[i].1),
            None => None,
        }
    }

    /// The total number of miners ever registered, or `None` while it is
    /// still zero.
    pub fn miner_count(&self) -> (r: Option<u64>)
        ensures
            r == (if self@.miner_count == 0 {
                None::<u64>
            } else {
                Some(self@.miner_count)
            }),
    {
        if self.miner_count == 0 {
            None
        } else {
            Some(self.miner_count)
        }
    }

    /// The total raw-bytes power declared in the system, or `None` while
    /// it is still zero.
    pub fn total_raw_bytes_power(&self) -> (r: Option<u128>)
        ensures
            r == (if self@.total_raw_bytes_power == 0 {
                None::<u128>
            } else {
                Some(self@.total_raw_bytes_power)
            }),
    {
        if self.total_raw_bytes_power == 0 {
            None
        } else {
            Some(self.total_raw_bytes_power)
        }
    }
}

/// Registering a miner adds exactly that miner's key to the claim map,
/// binds it to the zero claim, increments the miner count by one, and
/// leaves every other claim and the power aggregate unchanged.
pub proof fn lemma_register_adds_one(
    pre: PowerRegistryView,
    miner: Seq<u8>,
    post: PowerRegistryView,
    c: Claim,
)
    requires
        register_outcome(pre, miner) == Ok::<(PowerRegistryView, Claim), Error>((post, c)),
    ensures
        post.miner_count == pre.miner_count + 1,
        post.claims.dom() == pre.claims.dom().insert(miner),
        c == default_claim(),
        post.claims[miner] == default_claim(),
        post.total_raw_bytes_power == pre.total_raw_bytes_power,
        forall|k: Seq<u8>|
            pre.claims.contains_key(k) && k != miner ==> post.claims[k] == pre.claims[k],
{
    assert(post.claims.dom() =~= pre.claims.dom().insert(miner));
}

} // verus!
