//! The miner registry: per-miner identity records and their
//! authorization-gated state transitions.
//!
//! Each record carries an owner, a worker, a set of controllers, a peer
//! identifier, and at most one pending worker change and one pending
//! owner change.  Worker rotation is a two-step, time-delayed exchange;
//! ownership transfer is a two-step propose/confirm exchange.  Every
//! transition is specified as a pure function from the old record to the
//! new record and the single event the operation emits, and every
//! operation either performs its transition exactly or fails and leaves
//! all state unchanged.

use vstd::prelude::*;

use crate::access;
use crate::allocator::allocate_spec;
use crate::allocator::MinerIndexAllocator;
use crate::codec::derive_spec;
use crate::codec::AccountIdConversion;
use crate::codec::MinerId;
use crate::error::Error;
use crate::identifier::clone_bytes;
use crate::identifier::Identifier;
use crate::power::register_outcome;
use crate::power::PowerRegistry;
use crate::power::PowerRegistryView;
use crate::store;
use crate::store::entries_map;

verus! {

/// The views of a sequence of identities.
pub open spec fn ids_view(s: Seq<Identifier>) -> Seq<Seq<u8>> {
    s.map_values(|x: Identifier| x@)
}

/// Copies a list of identities.
pub fn clone_identifiers(v: &Vec<Identifier>) -> (r: Vec<Identifier>)
    ensures
        ids_view(r@) == ids_view(v@),
{
    let mut r: Vec<Identifier> = Vec::new();
    let mut i: usize = 0;
    while i < v.len()
        invariant
            i <= v.len(),
            r@.len() == i,
            forall|j: int| 0 <= j < i ==> (#[trigger] r@[j])@ == v@[j]@,
        decreases v.len() - i,
    {
        r.push(v[i].clone());
        i += 1;
    }
    proof {
        assert(ids_view(r@) =~= ids_view(v@));
    }
    r
}

/// A scheduled worker rotation: the new worker key, and the logical time
/// from which a confirmation will apply it.
#[derive(Debug, PartialEq, Eq)]
pub struct WorkerKeyChange {
    /// New worker address to be updated.
    pub new_worker: Identifier,
    /// Time after which a confirmation applies the update.
    pub effective_at: u64,
}

/// The abstract view of a scheduled worker rotation.
#[verifier::ext_equal]
pub struct WorkerKeyChangeView {
    pub new_worker: Seq<u8>,
    pub effective_at: u64,
}

impl View for WorkerKeyChange {
    type V = WorkerKeyChangeView;

    open spec fn view(&self) -> WorkerKeyChangeView {
        WorkerKeyChangeView { new_worker: self.new_worker@, effective_at: self.effective_at }
    }
}

impl Clone for WorkerKeyChange {
    fn clone(&self) -> (r: Self)
        ensures
            r@ == self@,
    {
        WorkerKeyChange { new_worker: self.new_worker.clone(), effective_at: self.effective_at }
    }
}

/// A miner's identity record.
#[derive(Debug, PartialEq, Eq)]
pub struct MinerInfo {
    /// Owner of this miner.
    pub owner: Identifier,
    /// Worker of this miner: signs messages on the miner's behalf.
    pub worker: Identifier,
    /// Other addresses that may sign messages on the miner's behalf.
    pub controllers: Vec<Identifier>,
    /// The miner's peer identifier.
    pub peer_id: Vec<u8>,
    /// The scheduled worker rotation, if one is pending.
    pub pending_worker: Option<WorkerKeyChange>,
    /// The proposed new owner, if an ownership transfer is pending.
    pub pending_owner: Option<Identifier>,
}

/// The abstract view of a miner record.
#[verifier::ext_equal]
pub struct MinerInfoView {
    pub owner: Seq<u8>,
    pub worker: Seq<u8>,
    pub controllers: Seq<Seq<u8>>,
    pub peer_id: Seq<u8>,
    pub pending_worker: Option<WorkerKeyChangeView>,
    pub pending_owner: Option<Seq<u8>>,
}

impl View for MinerInfo {
    type V = MinerInfoView;

    open spec fn view(&self) -> MinerInfoView {
        MinerInfoView {
            owner: self.owner@,
            worker: self.worker@,
            controllers: ids_view(self.controllers@),
            peer_id: self.peer_id@,
            pending_worker: match self.pending_worker {
                Some(w) => Some(w@),
                None => None,
            },
            pending_owner: match self.pending_owner {
                Some(p) => Some(p@),
                None => None,
            },
        }
    }
}

impl Clone for MinerInfo {
    fn clone(&self) -> (r: Self)
        ensures
            r@ == self@,
    {
        MinerInfo {
            owner: self.owner.clone(),
            worker: self.worker.clone(),
            controllers: clone_identifiers(&self.controllers),
            peer_id: clone_bytes(&self.peer_id),
            pending_worker: match &self.pending_worker {
                Some(w) => Some(w.clone()),
                None => None,
            },
            pending_owner: match &self.pending_owner {
                Some(p) => Some(p.clone()),
                None => None,
            },
        }
    }
}

/// How a worker-change request treats the controller list: replace it
/// wholesale, or keep it as it is.
#[derive(Debug, PartialEq, Eq)]
pub enum MinerControllers {
    /// Miner controller accounts should be set as supplied.
    Override(Vec<Identifier>),
    /// Miner controller accounts should not change.
    NoChange,
}

/// The abstract view of a controller-list directive.
#[verifier::ext_equal]
pub enum MinerControllersView {
    Override(Seq<Seq<u8>>),
    NoChange,
}

impl View for MinerControllers {
    type V = MinerControllersView;

    open spec fn view(&self) -> MinerControllersView {
        match self {
            MinerControllers::Override(ids) => MinerControllersView::Override(ids_view(ids@)),
            MinerControllers::NoChange => MinerControllersView::NoChange,
        }
    }
}

impl Clone for MinerControllers {
    fn clone(&self) -> (r: Self)
        ensures
            r@ == self@,
    {
        match self {
            MinerControllers::Override(ids) => MinerControllers::Override(
                clone_identifiers(ids),
            ),
            MinerControllers::NoChange => MinerControllers::NoChange,
        }
    }
}

/// The domain event a successful operation emits: exactly one per call,
/// none on failure.
#[derive(Debug, PartialEq, Eq)]
pub enum Event {
    /// A new miner was created, under this address.
    MinerCreated(Identifier),
    /// A worker change was requested: the miner, the requested worker,
    /// and the controller directive.
    WorkerChangeRequested(Identifier, Identifier, MinerControllers),
    /// The miner's worker key was rotated to this address.
    WorkerChanged(Identifier, Identifier),
    /// The miner's peer identifier was overwritten with these bytes.
    PeerIdChanged(Identifier, Vec<u8>),
    /// An ownership transfer to this address was requested or revoked.
    OwnerChangeRequested(Identifier, Identifier),
    /// The miner's owner changed to this address.
    OwnerChanged(Identifier, Identifier),
}

/// The abstract view of a domain event.
#[verifier::ext_equal]
pub enum EventView {
    MinerCreated(Seq<u8>),
    WorkerChangeRequested(Seq<u8>, Seq<u8>, MinerControllersView),
    WorkerChanged(Seq<u8>, Seq<u8>),
    PeerIdChanged(Seq<u8>, Seq<u8>),
    OwnerChangeRequested(Seq<u8>, Seq<u8>),
    OwnerChanged(Seq<u8>, Seq<u8>),
}

impl View for Event {
    type V = EventView;

    open spec fn view(&self) -> EventView {
        match self {
            Event::MinerCreated(m) => EventView::MinerCreated(m@),
            Event::WorkerChangeRequested(m, w, c) => EventView::WorkerChangeRequested(
                m@,
                w@,
                c@,
            ),
            Event::WorkerChanged(m, w) => EventView::WorkerChanged(m@, w@),
            Event::PeerIdChanged(m, p) => EventView::PeerIdChanged(m@, p@),
            Event::OwnerChangeRequested(m, o) => EventView::OwnerChangeRequested(m@, o@),
            Event::OwnerChanged(m, o) => EventView::OwnerChanged(m@, o@),
        }
    }
}

/// The owner-change transition on a single record.
///
/// A signer that is neither the current owner nor the pending candidate
/// is refused.  The pending candidate, proposing itself again, confirms
/// the transfer.  The owner proposing itself revokes a pending proposal,
/// and is refused as ineffective when nothing is pending; the owner
/// proposing anyone else installs (or overrides) the proposal.
pub open spec fn owner_change_step(
    m: Seq<u8>,
    rec: MinerInfoView,
    signer: Seq<u8>,
    new_owner: Seq<u8>,
) -> Result<(MinerInfoView, EventView), Error> {
    if access::can_confirm_owner_spec(signer, rec, new_owner) {
        Ok(
            (
                MinerInfoView { owner: signer, pending_owner: None, ..rec },
                EventView::OwnerChanged(m, new_owner),
            ),
        )
    } else if access::can_propose_owner_spec(signer, rec) {
        if signer == new_owner {
            if rec.pending_owner is Some {
                Ok(
                    (
                        MinerInfoView { pending_owner: None, ..rec },
                        EventView::OwnerChangeRequested(m, new_owner),
                    ),
                )
            } else {
                Err(Error::IneffectiveRequest)
            }
        } else {
            Ok(
                (
                    MinerInfoView { pending_owner: Some(new_owner), ..rec },
                    EventView::OwnerChangeRequested(m, new_owner),
                ),
            )
        }
    } else {
        Err(Error::InvalidSigner)
    }
}

/// The worker-change transition on a single record.
///
/// Only the owner may request it.  The controllers are replaced when the
/// directive says so; a request for a different worker schedules the
/// rotation at `now + delay`, and a request for the current worker clears
/// any pending rotation.
pub open spec fn worker_change_step(
    m: Seq<u8>,
    rec: MinerInfoView,
    signer: Seq<u8>,
    new_worker: Seq<u8>,
    new_controllers: MinerControllersView,
    now: u64,
    delay: u64,
) -> Result<(MinerInfoView, EventView), Error> {
    if !access::can_manage_keys_spec(signer, rec) {
        Err(Error::InvalidSigner)
    } else {
        let controllers = match new_controllers {
            MinerControllersView::Override(ids) => ids,
            MinerControllersView::NoChange => rec.controllers,
        };
        let pending_worker = if new_worker != rec.worker {
            Some(WorkerKeyChangeView { new_worker: new_worker, effective_at: (now + delay) as u64 })
        } else {
            None
        };
        Ok(
            (
                MinerInfoView { controllers, pending_worker, ..rec },
                EventView::WorkerChangeRequested(m, new_worker, new_controllers),
            ),
        )
    }
}

/// The worker-change confirmation on a single record.
///
/// Any signer may trigger it; it fails when nothing is pending or when
/// the effective time has not yet been reached, and otherwise installs
/// the pending worker.
pub open spec fn confirm_worker_step(m: Seq<u8>, rec: MinerInfoView, now: u64) -> Result<
    (MinerInfoView, EventView),
    Error,
> {
    match rec.pending_worker {
        None => Err(Error::NoRequest),
        Some(kc) => if kc.effective_at <= now {
            Ok(
                (
                    MinerInfoView { worker: kc.new_worker, pending_worker: None, ..rec },
                    EventView::WorkerChanged(m, kc.new_worker),
                ),
            )
        } else {
            Err(Error::IneffectiveRequest)
        },
    }
}

/// The peer-identifier transition on a single record: the owner, the
/// worker, or any controller overwrites the peer identifier in place.
pub open spec fn peer_change_step(
    m: Seq<u8>,
    rec: MinerInfoView,
    signer: Seq<u8>,
    new_peer_id: Seq<u8>,
) -> Result<(MinerInfoView, EventView), Error> {
    if access::can_update_peer_spec(signer, rec) {
        Ok(
            (
                MinerInfoView { peer_id: new_peer_id, ..rec },
                EventView::PeerIdChanged(m, new_peer_id),
            ),
        )
    } else {
        Err(Error::InvalidSigner)
    }
}

/// The abstract state of the miner registry.
#[verifier::ext_equal]
pub struct MinerRegistryView {
    pub miners: Map<Seq<u8>, MinerInfoView>,
    pub miner_index: u32,
    pub block_delay: u64,
}

/// What creating a miner does to the registry pair: it allocates the next
/// index, derives the miner's identity from it, registers the zero claim,
/// and inserts a fresh record with no controllers and nothing pending.
/// It fails with `Overflow` when the index range is exhausted and with
/// `ClaimsNotSet` when the power registry refuses the claim.
pub open spec fn create_outcome(
    pre: MinerRegistryView,
    pow: PowerRegistryView,
    owner: Seq<u8>,
    worker: Seq<u8>,
    peer_id: Seq<u8>,
) -> Result<(MinerRegistryView, PowerRegistryView, EventView), Error> {
    match allocate_spec(pre.miner_index) {
        None => Err(Error::Overflow),
        Some(idx) => {
            let m = derive_spec(idx);
            match register_outcome(pow, m) {
                Err(e) => Err(e),
                Ok((pow2, _claim)) => Ok(
                    (
                        MinerRegistryView {
                            miners: pre.miners.insert(
                                m,
                                MinerInfoView {
                                    owner,
                                    worker,
                                    controllers: Seq::empty(),
                                    peer_id,
                                    pending_worker: None,
                                    pending_owner: None,
                                },
                            ),
                            miner_index: idx,
                            ..pre
                        },
                        pow2,
                        EventView::MinerCreated(m),
                    ),
                ),
            }
        },
    }
}

/// The owner-change transition lifted to the registry: unknown miners are
/// refused, and a successful step replaces exactly that miner's record.
pub open spec fn owner_change_outcome(
    pre: MinerRegistryView,
    m: Seq<u8>,
    signer: Seq<u8>,
    new_owner: Seq<u8>,
) -> Result<(MinerRegistryView, EventView), Error> {
    if !pre.miners.contains_key(m) {
        Err(Error::NoSuchMiner)
    } else {
        match owner_change_step(m, pre.miners[m], signer, new_owner) {
            Ok((info, ev)) => Ok(
                (MinerRegistryView { miners: pre.miners.insert(m, info), ..pre }, ev),
            ),
            Err(e) => Err(e),
        }
    }
}

/// The worker-change transition lifted to the registry.
pub open spec fn worker_change_outcome(
    pre: MinerRegistryView,
    m: Seq<u8>,
    signer: Seq<u8>,
    new_worker: Seq<u8>,
    new_controllers: MinerControllersView,
    now: u64,
) -> Result<(MinerRegistryView, EventView), Error> {
    if !pre.miners.contains_key(m) {
        Err(Error::NoSuchMiner)
    } else {
        match worker_change_step(
            m,
            pre.miners[m],
            signer,
            new_worker,
            new_controllers,
            now,
            pre.block_delay,
        ) {
            Ok((info, ev)) => Ok(
                (MinerRegistryView { miners: pre.miners.insert(m, info), ..pre }, ev),
            ),
            Err(e) => Err(e),
        }
    }
}

/// The worker-change confirmation lifted to the registry.
pub open spec fn confirm_worker_outcome(pre: MinerRegistryView, m: Seq<u8>, now: u64) -> Result<
    (MinerRegistryView, EventView),
    Error,
> {
    if !pre.miners.contains_key(m) {
        Err(Error::NoSuchMiner)
    } else {
        match confirm_worker_step(m, pre.miners[m], now) {
            Ok((info, ev)) => Ok(
                (MinerRegistryView { miners: pre.miners.insert(m, info), ..pre }, ev),
            ),
            Err(e) => Err(e),
        }
    }
}

/// The peer-identifier transition lifted to the registry.
pub open spec fn peer_change_outcome(
    pre: MinerRegistryView,
    m: Seq<u8>,
    signer: Seq<u8>,
    new_peer_id: Seq<u8>,
) -> Result<(MinerRegistryView, EventView), Error> {
    if !pre.miners.contains_key(m) {
        Err(Error::NoSuchMiner)
    } else {
        match peer_change_step(m, pre.miners[m], signer, new_peer_id) {
            Ok((info, ev)) => Ok(
                (MinerRegistryView { miners: pre.miners.insert(m, info), ..pre }, ev),
            ),
            Err(e) => Err(e),
        }
    }
}

/// Per-miner identity records, the index allocator, and the fixed delay
/// applied to worker rotations.
pub struct MinerRegistry {
    miners: Vec<(Identifier, MinerInfo)>,
    allocator: MinerIndexAllocator,
    block_delay: u64,
}

impl View for MinerRegistry {
    type V = MinerRegistryView;

    closed spec fn view(&self) -> MinerRegistryView {
        MinerRegistryView {
            miners: entries_map(self.miners@),
            miner_index: self.allocator@,
            block_delay: self.block_delay,
        }
    }
}

impl MinerRegistry {
    /// An empty registry whose worker rotations become effective
    /// `block_delay` ticks after they are requested.
    pub fn new(block_delay: u64) -> (r: MinerRegistry)
        ensures
            r@.miners == Map::<Seq<u8>, MinerInfoView>::empty(),
            r@.miner_index == 0,
            r@.block_delay == block_delay,
    {
        let r = MinerRegistry {
            miners: Vec::new(),
            allocator: MinerIndexAllocator::new(),
            block_delay,
        };
        proof {
            store::lemma_entries_map_empty::<MinerInfo>();
        }
        r
    }

    /// The record registered under `miner`, if any.
    pub fn miners(&self, miner: &Identifier) -> (r: Option<MinerInfo>)
        ensures
            match r {
                Some(info) => self@.miners.contains_key(miner@) && info@ == self@.miners[miner@],
                None => !self@.miners.contains_key(miner@),
            },
    {
        match store::find_key(&self.miners, miner) {
            Some(i) => Some(self.miners[i].1.clone()),
            None => None,
        }
    }

    /// The last allocated miner index, or `None` while no miner was
    /// created yet.
    pub fn miner_index(&self) -> (r: Option<u32>)
        ensures
            r == (if self@.miner_index == 0 {
                None::<u32>
            } else {
                Some(self@.miner_index)
            }),
    {
        let c = self.allocator.current();
        if c == 0 {
            None
        } else {
            Some(c)
        }
    }

    /// The fixed delay applied to worker rotations.
    pub fn block_delay(&self) -> (r: u64)
        ensures
            r == self@.block_delay,
    {
        self.block_delay
    }

    /// Creates a miner owned by `owner` with worker `worker` and peer
    /// identifier `peer_id`: allocates the next index, derives the
    /// miner's identity, registers its zero claim with the power
    /// registry, and inserts the fresh record.  Any authenticated signer
    /// may create a miner on behalf of arbitrary owner and worker
    /// addresses, so no signer is taken.
    pub fn create(
        &mut self,
        power: &mut PowerRegistry,
        owner: &Identifier,
        worker: &Identifier,
        peer_id: Vec<u8>,
    ) -> (r: Result<Event, Error>)
        ensures
            match create_outcome(old(self)@, old(power)@, owner@, worker@, peer_id@) {
                Ok((post, post_power, ev)) => final(self)@ == post && final(power)@ == post_power
                    && (r matches Ok(e) && e@ == ev),
                Err(er) => final(self)@ == old(self)@ && final(power)@ == old(power)@ && (
                r matches Err(e2) && e2 == er),
            },
    {
        if self.allocator.current() == u32::MAX {
            return Err(Error::Overflow);
        }
        if !power.can_register() {
            return Err(Error::ClaimsNotSet);
        }
        let idx = match self.allocator.allocate() {
            Ok(i) => i,
            Err(e) => {
                return Err(e);
            },
        };
        let m = MinerId(idx).into_account();
        match power.register_new_miner(&m) {
            Ok(_) => {},
            Err(e) => {
                return Err(e);
            },
        };
        let new_info = MinerInfo {
            owner: owner.clone(),
            worker: worker.clone(),
            controllers: Vec::new(),
            peer_id,
            pending_worker: None,
            pending_owner: None,
        };
        proof {
            assert(ids_view(new_info.controllers@) =~= Seq::<Seq<u8>>::empty());
        }
        store::insert_entry(&mut self.miners, m.clone(), new_info);
        Ok(Event::MinerCreated(m))
    }

    /// Requests a worker rotation and replaces the controller list as the
    /// directive says; only the owner may.  `now` is the current logical
    /// time supplied by the host.
    pub fn change_worker_address(
        &mut self,
        signer: &Identifier,
        miner: &Identifier,
        new_worker: &Identifier,
        new_controllers: MinerControllers,
        now: u64,
    ) -> (r: Result<Event, Error>)
        requires
            now + old(self)@.block_delay <= u64::MAX,
        ensures
            match worker_change_outcome(
                old(self)@,
                miner@,
                signer@,
                new_worker@,
                new_controllers@,
                now,
            ) {
                Ok((post, ev)) => final(self)@ == post && (r matches Ok(e) && e@ == ev),
                Err(er) => final(self)@ == old(self)@ && (r matches Err(e2) && e2 == er),
            },
    {
        let i = match store::find_key(&self.miners, miner) {
            Some(i) => i,
            None => {
                return Err(Error::NoSuchMiner);
            },
        };
        let info = self.miners[i].1.clone();
        if !access::can_manage_keys(signer, &info) {
            return Err(Error::InvalidSigner);
        }
        let MinerInfo { owner, worker, controllers, peer_id, pending_worker: _, pending_owner } =
            info;
        let new_controller_list = match &new_controllers {
            MinerControllers::Override(ids) => clone_identifiers(ids),
            MinerControllers::NoChange => controllers,
        };
        let new_pending = if !worker.equals(new_worker) {
            Some(
                WorkerKeyChange {
                    new_worker: new_worker.clone(),
                    effective_at: now + self.block_delay,
                },
            )
        } else {
            None
        };
        let new_info = MinerInfo {
            owner,
            worker,
            controllers: new_controller_list,
            peer_id,
            pending_worker: new_pending,
            pending_owner,
        };
        store::insert_entry(&mut self.miners, miner.clone(), new_info);
        Ok(Event::WorkerChangeRequested(miner.clone(), new_worker.clone(), new_controllers))
    }

    /// Applies the pending worker rotation once its effective time has
    /// been reached.  Any paying signer may trigger the change the owner
    /// scheduled, so the signer is not inspected.
    pub fn confirm_update_worker_key(
        &mut self,
        _signer: &Identifier,
        miner: &Identifier,
        now: u64,
    ) -> (r: Result<Event, Error>)
        ensures
            match confirm_worker_outcome(old(self)@, miner@, now) {
                Ok((post, ev)) => final(self)@ == post && (r matches Ok(e) && e@ == ev),
                Err(er) => final(self)@ == old(self)@ && (r matches Err(e2) && e2 == er),
            },
    {
        let i = match store::find_key(&self.miners, miner) {
            Some(i) => i,
            None => {
                return Err(Error::NoSuchMiner);
            },
        };
        let info = self.miners[i].1.clone();
        let MinerInfo { owner, worker: _, controllers, peer_id, pending_worker, pending_owner } =
            info;
        match pending_worker {
            None => Err(Error::NoRequest),
            Some(kc) => {
                if kc.effective_at <= now {
                    let WorkerKeyChange { new_worker, effective_at: _ } = kc;
                    let announced = new_worker.clone();
                    let new_info = MinerInfo {
                        owner,
                        worker: new_worker,
                        controllers,
                        peer_id,
                        pending_worker: None,
                        pending_owner,
                    };
                    store::insert_entry(&mut self.miners, miner.clone(), new_info);
                    Ok(Event::WorkerChanged(miner.clone(), announced))
                } else {
                    Err(Error::IneffectiveRequest)
                }
            },
        }
    }

    /// Overwrites the miner's peer identifier; the owner, the worker, or
    /// any controller may.
    pub fn change_peer_id(
        &mut self,
        signer: &Identifier,
        miner: &Identifier,
        new_peer_id: Vec<u8>,
    ) -> (r: Result<Event, Error>)
        ensures
            match peer_change_outcome(old(self)@, miner@, signer@, new_peer_id@) {
                Ok((post, ev)) => final(self)@ == post && (r matches Ok(e) && e@ == ev),
                Err(er) => final(self)@ == old(self)@ && (r matches Err(e2) && e2 == er),
            },
    {
        let i = match store::find_key(&self.miners, miner) {
            Some(i) => i,
            None => {
                return Err(Error::NoSuchMiner);
            },
        };
        let info = self.miners[i].1.clone();
        if !access::can_update_peer(signer, &info) {
            return Err(Error::InvalidSigner);
        }
        let MinerInfo { owner, worker, controllers, peer_id: _, pending_worker, pending_owner } =
            info;
        let announced = clone_bytes(&new_peer_id);
        let new_info = MinerInfo {
            owner,
            worker,
            controllers,
            peer_id: new_peer_id,
            pending_worker,
            pending_owner,
        };
        store::insert_entry(&mut self.miners, miner.clone(), new_info);
        Ok(Event::PeerIdChanged(miner.clone(), announced))
    }

    /// Proposes, overrides, revokes or confirms an ownership transfer,
    /// as `owner_change_step` says.
    pub fn change_owner_address(
        &mut self,
        signer: &Identifier,
        miner: &Identifier,
        new_owner: &Identifier,
    ) -> (r: Result<Event, Error>)
        ensures
            match owner_change_outcome(old(self)@, miner@, signer@, new_owner@) {
                Ok((post, ev)) => final(self)@ == post && (r matches Ok(e) && e@ == ev),
                Err(er) => final(self)@ == old(self)@ && (r matches Err(e2) && e2 == er),
            },
    {
        let i = match store::find_key(&self.miners, miner) {
            Some(i) => i,
            None => {
                return Err(Error::NoSuchMiner);
            },
        };
        let info = self.miners[i].1.clone();
        let confirms = access::can_confirm_owner(signer, &info, new_owner);
        let is_owner = signer.equals(&info.owner);
        let has_pending = info.pending_owner.is_some();
        let MinerInfo { owner, worker, controllers, peer_id, pending_worker, pending_owner: _ } =
            info;
        if confirms {
            let new_info = MinerInfo {
                owner: new_owner.clone(),
                worker,
                controllers,
                peer_id,
                pending_worker,
                pending_owner: None,
            };
            store::insert_entry(&mut self.miners, miner.clone(), new_info);
            Ok(Event::OwnerChanged(miner.clone(), new_owner.clone()))
        } else if is_owner && signer.equals(new_owner) && has_pending {
            let new_info = MinerInfo {
                owner,
                worker,
                controllers,
                peer_id,
                pending_worker,
                pending_owner: None,
            };
            store::insert_entry(&mut self.miners, miner.clone(), new_info);
            Ok(Event::OwnerChangeRequested(miner.clone(), new_owner.clone()))
        } else if is_owner && signer.equals(new_owner) {
            Err(Error::IneffectiveRequest)
        } else if is_owner {
            let new_info = MinerInfo {
                owner,
                worker,
                controllers,
                peer_id,
                pending_worker,
                pending_owner: Some(new_owner.clone()),
            };
            store::insert_entry(&mut self.miners, miner.clone(), new_info);
            Ok(Event::OwnerChangeRequested(miner.clone(), new_owner.clone()))
        } else {
            Err(Error::InvalidSigner)
        }
    }
}

/// Unauthorized owner change: a signer that is neither the current owner
/// nor the pending candidate confirming itself is refused with
/// `InvalidSigner`.  A refused operation leaves the registry unchanged,
/// as the operation's own contract states.
pub proof fn lemma_owner_change_unauthorized(
    pre: MinerRegistryView,
    m: Seq<u8>,
    signer: Seq<u8>,
    new_owner: Seq<u8>,
)
    requires
        pre.miners.contains_key(m),
        signer != pre.miners[m].owner,
        !access::can_confirm_owner_spec(signer, pre.miners[m], new_owner),
    ensures
        owner_change_outcome(pre, m, signer, new_owner) == Err::<
            (MinerRegistryView, EventView),
            Error,
        >(Error::InvalidSigner),
{
}

/// Unauthorized worker change: a signer other than the owner is refused
/// with `InvalidSigner`.
pub proof fn lemma_worker_change_unauthorized(
    pre: MinerRegistryView,
    m: Seq<u8>,
    signer: Seq<u8>,
    new_worker: Seq<u8>,
    new_controllers: MinerControllersView,
    now: u64,
)
    requires
        pre.miners.contains_key(m),
        !access::can_manage_keys_spec(signer, pre.miners[m]),
    ensures
        worker_change_outcome(pre, m, signer, new_worker, new_controllers, now) == Err::<
            (MinerRegistryView, EventView),
            Error,
        >(Error::InvalidSigner),
{
}

/// Unauthorized peer-identifier change: a signer that is neither the
/// owner, the worker, nor a controller is refused with `InvalidSigner`.
pub proof fn lemma_peer_change_unauthorized(
    pre: MinerRegistryView,
    m: Seq<u8>,
    signer: Seq<u8>,
    new_peer_id: Seq<u8>,
)
    requires
        pre.miners.contains_key(m),
        !access::can_update_peer_spec(signer, pre.miners[m]),
    ensures
        peer_change_outcome(pre, m, signer, new_peer_id) == Err::<
            (MinerRegistryView, EventView),
            Error,
        >(Error::InvalidSigner),
{
}

/// Self-proposal rejection: the owner proposing itself while no transfer
/// is pending is refused as ineffective.
pub proof fn lemma_self_proposal_ineffective(pre: MinerRegistryView, m: Seq<u8>)
    requires
        pre.miners.contains_key(m),
        pre.miners[m].pending_owner is None,
    ensures
        owner_change_outcome(pre, m, pre.miners[m].owner, pre.miners[m].owner) == Err::<
            (MinerRegistryView, EventView),
            Error,
        >(Error::IneffectiveRequest),
{
}

/// Ownership transfer round: the owner's proposal of a new candidate
/// installs exactly that pending proposal, and the candidate confirming
/// itself afterwards becomes the owner, with the proposal cleared and
/// the two calls emitting `OwnerChangeRequested` then `OwnerChanged`.
pub proof fn lemma_owner_transfer_round(
    pre: MinerRegistryView,
    m: Seq<u8>,
    candidate: Seq<u8>,
    post: MinerRegistryView,
    ev: EventView,
)
    requires
        pre.miners.contains_key(m),
        candidate != pre.miners[m].owner,
        owner_change_outcome(pre, m, pre.miners[m].owner, candidate) == Ok::<
            (MinerRegistryView, EventView),
            Error,
        >((post, ev)),
    ensures
        post.miners[m].pending_owner == Some(candidate),
        post.miners[m].owner == pre.miners[m].owner,
        ev == EventView::OwnerChangeRequested(m, candidate),
        confirm_owner_holds(post, m, candidate),
{
}

/// In state `s`, the candidate confirming itself on miner `m` succeeds,
/// becomes the owner, clears the proposal and emits `OwnerChanged`.
pub open spec fn confirm_owner_holds(s: MinerRegistryView, m: Seq<u8>, candidate: Seq<u8>) -> bool {
    owner_change_outcome(s, m, candidate, candidate) matches Ok((s2, e2))
        && s2.miners[m].owner == candidate && s2.miners[m].pending_owner is None && e2
        == EventView::OwnerChanged(m, candidate)
}

/// Worker rotation timing: a rotation requested at time `now` is
/// scheduled at exactly `now + delay`; confirming it fails as
/// ineffective while the clock is below that time, and installs the new
/// worker at or after it.
pub proof fn lemma_worker_rotation_timing(
    pre: MinerRegistryView,
    m: Seq<u8>,
    new_worker: Seq<u8>,
    new_controllers: MinerControllersView,
    now: u64,
    t: u64,
    post: MinerRegistryView,
    ev: EventView,
)
    requires
        pre.miners.contains_key(m),
        new_worker != pre.miners[m].worker,
        now + pre.block_delay <= u64::MAX,
        worker_change_outcome(pre, m, pre.miners[m].owner, new_worker, new_controllers, now)
            == Ok::<(MinerRegistryView, EventView), Error>((post, ev)),
    ensures
        post.miners[m].pending_worker == Some(
            WorkerKeyChangeView { new_worker, effective_at: (now + pre.block_delay) as u64 },
        ),
        t < now + pre.block_delay ==> confirm_worker_outcome(post, m, t) == Err::<
            (MinerRegistryView, EventView),
            Error,
        >(Error::IneffectiveRequest),
        t >= now + pre.block_delay ==> worker_installed_holds(post, m, new_worker, t),
{
}

/// In state `s`, confirming the worker rotation on miner `m` at time `t`
/// succeeds, installs `new_worker`, clears the pending rotation and
/// emits `WorkerChanged`.
pub open spec fn worker_installed_holds(
    s: MinerRegistryView,
    m: Seq<u8>,
    new_worker: Seq<u8>,
    t: u64,
) -> bool {
    confirm_worker_outcome(s, m, t) matches Ok((s2, e2)) && s2.miners[m].worker == new_worker
        && s2.miners[m].pending_worker is None && e2 == EventView::WorkerChanged(m, new_worker)
}

/// Worker self-cancel: the owner requesting the record's current worker
/// again clears any pending rotation, so the rotation it superseded can
/// never fire.
pub proof fn lemma_worker_request_self_cancels(
    pre: MinerRegistryView,
    m: Seq<u8>,
    new_controllers: MinerControllersView,
    now: u64,
)
    requires
        pre.miners.contains_key(m),
        now + pre.block_delay <= u64::MAX,
    ensures
        worker_change_outcome(pre, m, pre.miners[m].owner, pre.miners[m].worker, new_controllers, now)
            matches Ok((post, ev)) && post.miners[m].pending_worker is None,
{
}

} // verus!
