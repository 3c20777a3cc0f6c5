use miner_registry::codec::AccountIdConversion;
use miner_registry::codec::MinerId;
use miner_registry::error::Error;
use miner_registry::identifier::Identifier;
use miner_registry::miner::Event;
use miner_registry::miner::MinerControllers;
use miner_registry::miner::MinerRegistry;
use miner_registry::power::PowerRegistry;

const WORKER: u64 = 33;
const PEERID_BYTE: u8 = 9;
const BLOCK_DELAY: u64 = 5;

fn account(n: u64) -> Identifier {
    let mut bytes = vec![0u8; 32];
    let le = n.to_le_bytes();
    bytes[..8].copy_from_slice(&le);
    Identifier::from_bytes(bytes)
}

fn first_miner_addr() -> Identifier {
    MinerId(1).into_account()
}

fn new_registries() -> (MinerRegistry, PowerRegistry) {
    (MinerRegistry::new(BLOCK_DELAY), PowerRegistry::new())
}

fn create_miner_for(
    miner: &mut MinerRegistry,
    power: &mut PowerRegistry,
    owner: u64,
) -> Result<Event, Error> {
    miner.create(power, &account(owner), &account(WORKER), vec![PEERID_BYTE])
}

#[test]
fn first_miner_addr_is_correct() {
    let mut expected = vec![109u8, 105, 110, 101, 114, 1, 0, 0, 0];
    expected.resize(32, 0);
    assert_eq!(first_miner_addr(), Identifier::from_bytes(expected));
}

#[test]
fn create_miner() {
    let (mut miner, mut power) = new_registries();
    let owner = account(0);
    let worker = account(1);
    let peer_id = vec![1u8, 32];
    let expected_miner_index: u32 = 1;

    let event = miner
        .create(&mut power, &owner, &worker, peer_id.clone())
        .expect("creation failed");

    let miner_index = miner.miner_index();
    let new_miner_addr = MinerId(miner_index.unwrap()).into_account();
    let new_miner_info = miner.miners(&new_miner_addr).unwrap();

    assert_eq!(miner.miner_index(), Some(expected_miner_index));
    assert_eq!(new_miner_info.owner, owner);
    assert_eq!(new_miner_info.worker, worker);
    assert_eq!(new_miner_info.peer_id, peer_id);
    assert_eq!(new_miner_info.controllers.len(), 0);
    assert_eq!(event, Event::MinerCreated(new_miner_addr));
}

#[test]
fn it_creates_worker_change_request_with_valid_signer_and_new_worker() {
    let (mut miner, mut power) = new_registries();
    let owner: u64 = 123;
    assert!(create_miner_for(&mut miner, &mut power, owner).is_ok());

    // initial logical time, used to compute effective_at
    let block: u64 = 1;

    let new_worker: u64 = 99;
    let new_controllers = MinerControllers::Override(vec![account(1), account(2), account(3)]);
    let event = miner
        .change_worker_address(
            &account(owner),
            &first_miner_addr(),
            &account(new_worker),
            MinerControllers::Override(vec![account(1), account(2), account(3)]),
            block,
        )
        .expect("worker change request failed");

    let miner_key_change = miner
        .miners(&first_miner_addr())
        .unwrap()
        .pending_worker
        .unwrap();

    assert_eq!(miner_key_change.new_worker, account(new_worker));
    assert_eq!(miner_key_change.effective_at, block + miner.block_delay());
    assert_eq!(
        event,
        Event::WorkerChangeRequested(first_miner_addr(), account(new_worker), new_controllers)
    );
}

#[test]
fn it_clears_worker_change_request_with_valid_signer_and_old_worker() {
    let (mut miner, mut power) = new_registries();
    let owner: u64 = 123;
    assert!(create_miner_for(&mut miner, &mut power, owner).is_ok());

    // set initial pending_worker request
    let new_worker: u64 = 99;
    assert!(miner
        .change_worker_address(
            &account(owner),
            &first_miner_addr(),
            &account(new_worker),
            MinerControllers::NoChange,
            0,
        )
        .is_ok());

    // clears existing pending_worker request with existing worker
    assert!(miner
        .change_worker_address(
            &account(owner),
            &first_miner_addr(),
            &account(WORKER),
            MinerControllers::NoChange,
            0,
        )
        .is_ok());

    assert!(miner
        .miners(&first_miner_addr())
        .unwrap()
        .pending_worker
        .is_none());
}

#[test]
fn no_change_to_controllers_without_override() {
    let (mut miner, mut power) = new_registries();
    let owner: u64 = 123;
    assert!(create_miner_for(&mut miner, &mut power, owner).is_ok());

    // set initial pending_worker request
    let new_worker: u64 = 99;
    let new_controllers = vec![account(1), account(2), account(3)];
    assert!(miner
        .change_worker_address(
            &account(owner),
            &first_miner_addr(),
            &account(new_worker),
            MinerControllers::Override(vec![account(1), account(2), account(3)]),
            0,
        )
        .is_ok());

    // clears existing pending_worker request with existing worker
    assert!(miner
        .change_worker_address(
            &account(owner),
            &first_miner_addr(),
            &account(WORKER),
            MinerControllers::NoChange,
            0,
        )
        .is_ok());

    assert_eq!(
        miner.miners(&first_miner_addr()).unwrap().controllers,
        new_controllers
    );
}

#[test]
fn it_rejects_worker_change_request_with_invalid_signer() {
    let (mut miner, mut power) = new_registries();
    let owner: u64 = 123;
    assert!(create_miner_for(&mut miner, &mut power, owner).is_ok());

    let before = miner.miners(&first_miner_addr());
    let invalid_signer: u64 = 456;
    assert_eq!(
        miner.change_worker_address(
            &account(invalid_signer),
            &first_miner_addr(),
            &account(WORKER),
            MinerControllers::NoChange,
            1,
        ),
        Err(Error::InvalidSigner)
    );
    assert_eq!(miner.miners(&first_miner_addr()), before);
}

#[test]
fn it_accepts_effective_worker_change_trigger() {
    let (mut miner, mut power) = new_registries();
    let owner: u64 = 123;
    assert!(create_miner_for(&mut miner, &mut power, owner).is_ok());

    // set initial pending_worker request
    let new_worker: u64 = 99;
    assert!(miner
        .change_worker_address(
            &account(owner),
            &first_miner_addr(),
            &account(new_worker),
            MinerControllers::NoChange,
            1,
        )
        .is_ok());

    let event = miner
        .confirm_update_worker_key(&account(owner), &first_miner_addr(), 10)
        .expect("confirmation failed");

    let new_miner_info = miner.miners(&first_miner_addr()).unwrap();

    assert_eq!(new_miner_info.worker, account(new_worker));
    assert!(new_miner_info.pending_worker.is_none());
    assert_eq!(
        event,
        Event::WorkerChanged(first_miner_addr(), account(new_worker))
    );
}

#[test]
fn it_rejects_trigger_before_effective_at() {
    let (mut miner, mut power) = new_registries();
    let owner: u64 = 123;
    assert!(create_miner_for(&mut miner, &mut power, owner).is_ok());

    // set initial pending_worker request
    let new_worker: u64 = 99;
    assert!(miner
        .change_worker_address(
            &account(owner),
            &first_miner_addr(),
            &account(new_worker),
            MinerControllers::NoChange,
            1,
        )
        .is_ok());

    assert_eq!(
        miner.confirm_update_worker_key(&account(owner), &first_miner_addr(), BLOCK_DELAY),
        Err(Error::IneffectiveRequest)
    );
}

#[test]
fn it_rejects_trigger_without_request() {
    let (mut miner, mut power) = new_registries();
    let owner: u64 = 123;
    assert!(create_miner_for(&mut miner, &mut power, owner).is_ok());

    assert_eq!(
        miner.confirm_update_worker_key(&account(owner), &first_miner_addr(), 1),
        Err(Error::NoRequest)
    );
}

#[test]
fn owner_can_create_owner_change_request() {
    let (mut miner, mut power) = new_registries();
    let owner: u64 = 123;
    let new_owner: u64 = 234;
    assert!(create_miner_for(&mut miner, &mut power, owner).is_ok());

    let event = miner
        .change_owner_address(&account(owner), &first_miner_addr(), &account(new_owner))
        .expect("owner change request failed");

    assert_eq!(
        miner.miners(&first_miner_addr()).unwrap().pending_owner,
        Some(account(new_owner))
    );
    assert_eq!(
        event,
        Event::OwnerChangeRequested(first_miner_addr(), account(new_owner))
    );
}

#[test]
fn owner_cannot_create_owner_change_request_with_own_account() {
    let (mut miner, mut power) = new_registries();
    let owner: u64 = 123;
    assert!(create_miner_for(&mut miner, &mut power, owner).is_ok());

    assert_eq!(
        miner.change_owner_address(&account(owner), &first_miner_addr(), &account(owner)),
        Err(Error::IneffectiveRequest)
    );
}

#[test]
fn it_cannot_create_owner_change_request_with_invalid_signer() {
    let (mut miner, mut power) = new_registries();
    let owner: u64 = 123;
    let new_owner: u64 = 234;
    let random_account: u64 = 789;
    assert!(create_miner_for(&mut miner, &mut power, owner).is_ok());

    assert_eq!(
        miner.change_owner_address(
            &account(random_account),
            &first_miner_addr(),
            &account(new_owner)
        ),
        Err(Error::InvalidSigner)
    );
}

#[test]
fn proposed_owner_can_confirm_change_request() {
    let (mut miner, mut power) = new_registries();
    let owner: u64 = 123;
    let new_owner: u64 = 234;
    assert!(create_miner_for(&mut miner, &mut power, owner).is_ok());

    assert!(miner
        .change_owner_address(&account(owner), &first_miner_addr(), &account(new_owner))
        .is_ok());

    let event = miner
        .change_owner_address(&account(new_owner), &first_miner_addr(), &account(new_owner))
        .expect("confirmation failed");

    assert_eq!(
        miner.miners(&first_miner_addr()).unwrap().owner,
        account(new_owner)
    );
    assert_eq!(miner.miners(&first_miner_addr()).unwrap().pending_owner, None);
    assert_eq!(
        event,
        Event::OwnerChanged(first_miner_addr(), account(new_owner))
    );
}

#[test]
fn owner_can_revoke_existing_owner_change_request() {
    let (mut miner, mut power) = new_registries();
    let owner: u64 = 123;
    let new_owner: u64 = 234;
    assert!(create_miner_for(&mut miner, &mut power, owner).is_ok());

    assert!(miner
        .change_owner_address(&account(owner), &first_miner_addr(), &account(new_owner))
        .is_ok());

    assert!(miner
        .change_owner_address(&account(owner), &first_miner_addr(), &account(new_owner))
        .is_ok());

    assert_eq!(
        miner.miners(&first_miner_addr()).unwrap().pending_owner,
        Some(account(new_owner))
    );

    let event = miner
        .change_owner_address(&account(owner), &first_miner_addr(), &account(owner))
        .expect("revocation failed");

    assert_eq!(miner.miners(&first_miner_addr()).unwrap().owner, account(owner));
    assert_eq!(miner.miners(&first_miner_addr()).unwrap().pending_owner, None);
    assert_eq!(
        event,
        Event::OwnerChangeRequested(first_miner_addr(), account(owner))
    );
}

#[test]
fn it_changes_peer_id_with_valid_signer() {
    let (mut miner, mut power) = new_registries();
    let owner: u64 = 123;
    let new_peer_id = vec![88u8];
    assert!(create_miner_for(&mut miner, &mut power, owner).is_ok());

    let event = miner
        .change_peer_id(&account(owner), &first_miner_addr(), new_peer_id.clone())
        .expect("peer id change failed");

    let peer_id = miner.miners(&first_miner_addr()).unwrap().peer_id;

    assert_eq!(peer_id, new_peer_id);
    assert_eq!(
        event,
        Event::PeerIdChanged(first_miner_addr(), new_peer_id)
    );
}

#[test]
fn it_rejects_change_to_peer_id_with_invalid_signer() {
    let (mut miner, mut power) = new_registries();
    let owner: u64 = 123;
    let invalid_signer: u64 = 234;
    let new_peer_id = vec![88u8];
    assert!(create_miner_for(&mut miner, &mut power, owner).is_ok());

    let before = miner.miners(&first_miner_addr());
    assert_eq!(
        miner.change_peer_id(&account(invalid_signer), &first_miner_addr(), new_peer_id),
        Err(Error::InvalidSigner)
    );
    assert_eq!(miner.miners(&first_miner_addr()), before);
}

#[test]
fn worker_change_applies_exactly_at_effective_time() {
    let (mut miner, mut power) = new_registries();
    let owner: u64 = 123;
    assert!(create_miner_for(&mut miner, &mut power, owner).is_ok());

    // requested at time 1 with delay 5, so effective exactly at 6
    let new_worker: u64 = 99;
    assert!(miner
        .change_worker_address(
            &account(owner),
            &first_miner_addr(),
            &account(new_worker),
            MinerControllers::NoChange,
            1,
        )
        .is_ok());

    let event = miner
        .confirm_update_worker_key(&account(owner), &first_miner_addr(), 6)
        .expect("confirmation at the effective time failed");
    assert_eq!(
        event,
        Event::WorkerChanged(first_miner_addr(), account(new_worker))
    );
    assert_eq!(
        miner.miners(&first_miner_addr()).unwrap().worker,
        account(new_worker)
    );
}

#[test]
fn cancelled_worker_change_never_fires() {
    let (mut miner, mut power) = new_registries();
    let owner: u64 = 123;
    assert!(create_miner_for(&mut miner, &mut power, owner).is_ok());

    // schedule a change to a new worker, then request the old worker back
    let new_worker: u64 = 99;
    assert!(miner
        .change_worker_address(
            &account(owner),
            &first_miner_addr(),
            &account(new_worker),
            MinerControllers::NoChange,
            1,
        )
        .is_ok());
    assert!(miner
        .change_worker_address(
            &account(owner),
            &first_miner_addr(),
            &account(WORKER),
            MinerControllers::NoChange,
            2,
        )
        .is_ok());

    // even far past the original effective time there is nothing to apply
    assert_eq!(
        miner.confirm_update_worker_key(&account(owner), &first_miner_addr(), 100),
        Err(Error::NoRequest)
    );
    assert_eq!(
        miner.miners(&first_miner_addr()).unwrap().worker,
        account(WORKER)
    );
}

#[test]
fn peer_id_change_allowed_for_worker_and_controller() {
    let (mut miner, mut power) = new_registries();
    let owner: u64 = 123;
    let controller: u64 = 55;
    assert!(create_miner_for(&mut miner, &mut power, owner).is_ok());

    assert!(miner
        .change_worker_address(
            &account(owner),
            &first_miner_addr(),
            &account(WORKER),
            MinerControllers::Override(vec![account(controller)]),
            1,
        )
        .is_ok());

    assert!(miner
        .change_peer_id(&account(WORKER), &first_miner_addr(), vec![7u8])
        .is_ok());
    assert!(miner
        .change_peer_id(&account(controller), &first_miner_addr(), vec![8u8])
        .is_ok());
    assert_eq!(miner.miners(&first_miner_addr()).unwrap().peer_id, vec![8u8]);
}

#[test]
fn sequential_creations_use_distinct_addresses() {
    let (mut miner, mut power) = new_registries();
    let e1 = create_miner_for(&mut miner, &mut power, 123).expect("first creation failed");
    let e2 = create_miner_for(&mut miner, &mut power, 123).expect("second creation failed");

    let a1 = MinerId(1).into_account();
    let a2 = MinerId(2).into_account();
    assert_ne!(a1, a2);
    assert_eq!(e1, Event::MinerCreated(a1.clone()));
    assert_eq!(e2, Event::MinerCreated(a2.clone()));
    assert_eq!(miner.miner_index(), Some(2));
    assert!(miner.miners(&a1).is_some());
    assert!(miner.miners(&a2).is_some());
}

#[test]
fn operations_on_unknown_miner_fail() {
    let (mut miner, mut power) = new_registries();
    assert!(create_miner_for(&mut miner, &mut power, 123).is_ok());
    let unknown = MinerId(2).into_account();

    assert_eq!(
        miner.change_owner_address(&account(123), &unknown, &account(234)),
        Err(Error::NoSuchMiner)
    );
    assert_eq!(
        miner.change_worker_address(
            &account(123),
            &unknown,
            &account(99),
            MinerControllers::NoChange,
            1
        ),
        Err(Error::NoSuchMiner)
    );
    assert_eq!(
        miner.confirm_update_worker_key(&account(123), &unknown, 1),
        Err(Error::NoSuchMiner)
    );
    assert_eq!(
        miner.change_peer_id(&account(123), &unknown, vec![1u8]),
        Err(Error::NoSuchMiner)
    );
}
