use mojo_world::codec::MojoState;
use mojo_world::codec::StateLayout;
use mojo_world::error::WorldError;
use mojo_world::instructions::IxKind;
use mojo_world::instructions::create_world_ix;
use mojo_world::instructions::delegate_account_ix;
use mojo_world::instructions::write_to_world_ix;
use mojo_world::ledger::Layer;
use mojo_world::ledger::LedgerDouble;
use mojo_world::ledger::LedgerPort;
use mojo_world::world::NetworkConfig;
use mojo_world::world::World;

const OWNER: [u8; 32] = [3; 32];

fn counter_state(count: u64) -> MojoState {
    let mut v = MojoState::new();
    v.push_u64_le(count);
    v
}

#[test]
fn create_state_then_read_state_returns_initial_value() {
    let mut ledger = LedgerDouble::new();
    let initial = counter_state(0);
    let addr = World::create_state(&mut ledger, &OWNER, "inventory", &initial).unwrap();
    let (derived, _) = mojo_world::pda::derive(&OWNER, "inventory").unwrap();
    assert_eq!(addr, derived);

    let layout = StateLayout::new(8);
    let read = World::read_state(&ledger, &OWNER, "inventory", &layout).unwrap();
    assert_eq!(read, initial);
    assert_eq!(read.to_bytes(), initial.to_bytes());
}

#[test]
fn two_writes_read_back_the_second() {
    let mut ledger = LedgerDouble::new();
    World::create_state(&mut ledger, &OWNER, "slot", &counter_state(1)).unwrap();

    let v1 = counter_state(11);
    let v2 = counter_state(22);
    World::write_state(&mut ledger, &OWNER, "slot", &v1).unwrap();
    World::write_state(&mut ledger, &OWNER, "slot", &v2).unwrap();

    let layout = StateLayout::new(8);
    let read = World::read_state(&ledger, &OWNER, "slot", &layout).unwrap();
    assert_eq!(read, v2);
    assert_ne!(read, v1);
}

#[test]
fn inventory_scenario() {
    let mut ledger = LedgerDouble::new();

    // Create {count: 0}; the returned address is the derived one.
    let addr = World::create_state(&mut ledger, &OWNER, "inventory", &counter_state(0)).unwrap();
    let (derived, _) = mojo_world::pda::derive(&OWNER, "inventory").unwrap();
    assert_eq!(addr, derived);

    // Write {count: 5} and read it back.
    World::write_state(&mut ledger, &OWNER, "inventory", &counter_state(5)).unwrap();
    let layout = StateLayout::new(8);
    let read = World::read_state(&ledger, &OWNER, "inventory", &layout).unwrap();
    assert_eq!(read, counter_state(5));

    // Simulate a truncated account: fewer bytes than the struct size.
    assert!(ledger.set_ephemeral_bytes(&addr, &[5, 0, 0]));
    match World::read_state(&ledger, &OWNER, "inventory", &layout) {
        Err(WorldError::AccountTooSmall(got, need)) => {
            assert_eq!(got, 3);
            assert_eq!(need, 8);
        }
        other => panic!("expected an account-too-small error, got {:?}", other),
    }
}

#[test]
fn distinct_names_are_independent_accounts() {
    let mut ledger = LedgerDouble::new();
    let addr_a = World::create_state(&mut ledger, &OWNER, "a", &counter_state(1)).unwrap();
    let addr_b = World::create_state(&mut ledger, &OWNER, "b", &counter_state(2)).unwrap();
    assert_ne!(addr_a, addr_b);

    // Writing one never mutates the other's stored bytes.
    World::write_state(&mut ledger, &OWNER, "a", &counter_state(77)).unwrap();
    let layout = StateLayout::new(8);
    let read_a = World::read_state(&ledger, &OWNER, "a", &layout).unwrap();
    let read_b = World::read_state(&ledger, &OWNER, "b", &layout).unwrap();
    assert_eq!(read_a, counter_state(77));
    assert_eq!(read_b, counter_state(2));
}

#[test]
fn create_world_returns_identity_and_stores_record() {
    let mut ledger = LedgerDouble::new();
    let world = World::create_world(&mut ledger, &OWNER, "home").unwrap();
    let (derived, _) = mojo_world::pda::derive(&OWNER, "home").unwrap();
    assert_eq!(world.creator, OWNER);
    assert_eq!(world.address, derived);
    assert_eq!(world.seed, mojo_world::pda::world_seed_hash(&OWNER, "home"));

    // The stored record is the creator bytes followed by the seed bytes, on
    // the base layer; no delegation happened, so the ephemeral copy is absent.
    let stored = ledger.get_account_bytes(&world.address, Layer::BaseLayer).unwrap();
    assert_eq!(&stored[..32], &OWNER);
    assert_eq!(&stored[32..], &world.seed);
    assert!(matches!(
        ledger.get_account_bytes(&world.address, Layer::Ephemeral),
        Err(WorldError::AccountNotFound(_))
    ));
}

#[test]
fn write_before_delegation_is_rejected_locally_by_the_double() {
    let mut ledger = LedgerDouble::new();
    // Create without delegating, by submitting the create instruction alone.
    let (addr, create_ix, _delegate_ix) =
        mojo_world::world::create_state_plan(&OWNER, "raw", &counter_state(4)).unwrap();
    ledger.send_ixs(&vec![create_ix], Layer::BaseLayer).unwrap();

    match World::write_state(&mut ledger, &OWNER, "raw", &counter_state(9)) {
        Err(WorldError::NotDelegated) => {}
        other => panic!("expected a not-delegated error, got {:?}", other),
    }
    // The ephemeral layer serves nothing for an undelegated account.
    assert!(matches!(
        ledger.get_account_bytes(&addr, Layer::Ephemeral),
        Err(WorldError::AccountNotFound(_))
    ));
}

#[test]
fn mismatched_fingerprint_is_not_authorized() {
    let mut ledger = LedgerDouble::new();
    World::create_state(&mut ledger, &OWNER, "guarded", &counter_state(1)).unwrap();

    let (addr, _) = mojo_world::pda::derive(&OWNER, "guarded").unwrap();
    let forged = write_to_world_ix(OWNER, addr, [0xee; 32], &[1, 2, 3]);
    match ledger.send_ixs(&vec![forged], Layer::Ephemeral) {
        Err(WorldError::NotAuthorized(_)) => {}
        other => panic!("expected a not-authorized error, got {:?}", other),
    }
}

#[test]
fn creating_the_same_account_twice_fails_and_changes_nothing() {
    let mut ledger = LedgerDouble::new();
    World::create_state(&mut ledger, &OWNER, "once", &counter_state(1)).unwrap();
    assert!(matches!(
        World::create_state(&mut ledger, &OWNER, "once", &counter_state(2)),
        Err(WorldError::RpcError(_))
    ));

    let layout = StateLayout::new(8);
    let read = World::read_state(&ledger, &OWNER, "once", &layout).unwrap();
    assert_eq!(read, counter_state(1));
}

#[test]
fn long_names_are_rejected_before_any_submission() {
    let mut ledger = LedgerDouble::new();
    let long_name = "n".repeat(33);
    assert!(matches!(
        World::create_state(&mut ledger, &OWNER, &long_name, &counter_state(0)),
        Err(WorldError::InvalidNameLength(33, 32))
    ));
    assert!(matches!(
        World::write_state(&mut ledger, &OWNER, &long_name, &counter_state(0)),
        Err(WorldError::InvalidNameLength(33, 32))
    ));
    assert!(matches!(
        World::read_state(&ledger, &OWNER, &long_name, &StateLayout::new(8)),
        Err(WorldError::InvalidNameLength(33, 32))
    ));
    assert!(matches!(
        World::create_world(&mut ledger, &OWNER, &long_name),
        Err(WorldError::InvalidNameLength(33, 32))
    ));
}

#[test]
fn reading_an_absent_account_fails() {
    let ledger = LedgerDouble::new();
    match World::read_state(&ledger, &OWNER, "nothing", &StateLayout::new(8)) {
        Err(e @ WorldError::AccountNotFound(_)) => {
            assert_eq!(e.label(), "account not found");
        }
        other => panic!("expected an account-not-found error, got {:?}", other),
    }
}

#[test]
fn builders_fill_every_field() {
    let payer = [1u8; 32];
    let address = [2u8; 32];
    let seed = [3u8; 32];
    let data = [9u8, 8, 7];

    let c = create_world_ix(payer, address, seed, &data);
    assert_eq!(c.kind, IxKind::CreateWorld);
    assert_eq!(c.payer, payer);
    assert_eq!(c.address, address);
    assert_eq!(c.seed_hash, seed);
    assert_eq!(c.data, data.to_vec());

    let d = delegate_account_ix(payer, address, seed, &data);
    assert_eq!(d.kind, IxKind::DelegateAccount);
    assert_eq!(d.data, data.to_vec());

    let w = write_to_world_ix(payer, address, seed, &data);
    assert_eq!(w.kind, IxKind::WriteToWorld);
    assert_eq!(w.data, data.to_vec());
}

#[test]
fn onledger_wire_data_is_tag_then_seed_then_image() {
    let payer = [1u8; 32];
    let address = [2u8; 32];
    let seed = [3u8; 32];

    let c = create_world_ix(payer, address, seed, &[9, 8]);
    let mut expected = vec![0u8];
    expected.extend_from_slice(&seed);
    expected.extend_from_slice(&[9, 8]);
    assert_eq!(mojo_world::instructions::onledger_data(&c), expected);

    let d = delegate_account_ix(payer, address, seed, &[]);
    let mut expected = vec![1u8];
    expected.extend_from_slice(&seed);
    assert_eq!(mojo_world::instructions::onledger_data(&d), expected);

    let w = write_to_world_ix(payer, address, seed, &[7]);
    let mut expected = vec![2u8];
    expected.extend_from_slice(&seed);
    expected.push(7);
    assert_eq!(mojo_world::instructions::onledger_data(&w), expected);
}

#[test]
fn endpoint_table_selects_by_layer() {
    let config = NetworkConfig::new(
        "https://base.example".to_string(),
        "https://fast.example".to_string(),
    );
    assert_eq!(config.endpoint_url(Layer::BaseLayer), "https://base.example");
    assert_eq!(config.endpoint_url(Layer::Ephemeral), "https://fast.example");
}
