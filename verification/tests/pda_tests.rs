use mojo_world::error::WorldError;
use mojo_world::pda::MAX_NAME_LEN;
use mojo_world::pda::find_world_pda;
use mojo_world::pda::world_seed_hash;

const OWNER_A: [u8; 32] = [7; 32];
const OWNER_B: [u8; 32] = [8; 32];

#[test]
fn derive_is_deterministic() {
    let first = mojo_world::pda::derive(&OWNER_A, "inventory").unwrap();
    let second = mojo_world::pda::derive(&OWNER_A, "inventory").unwrap();
    assert_eq!(first, second);
    assert_eq!(
        world_seed_hash(&OWNER_A, "inventory"),
        world_seed_hash(&OWNER_A, "inventory")
    );
    assert_eq!(
        find_world_pda(&OWNER_A, "inventory").unwrap(),
        find_world_pda(&OWNER_A, "inventory").unwrap()
    );
}

#[test]
fn distinct_names_derive_distinct_results() {
    let (addr_a, fp_a) = mojo_world::pda::derive(&OWNER_A, "a").unwrap();
    let (addr_b, fp_b) = mojo_world::pda::derive(&OWNER_A, "b").unwrap();
    assert_ne!(addr_a, addr_b);
    assert_ne!(fp_a, fp_b);
}

#[test]
fn distinct_owners_derive_distinct_results() {
    let (addr_a, fp_a) = mojo_world::pda::derive(&OWNER_A, "inventory").unwrap();
    let (addr_b, fp_b) = mojo_world::pda::derive(&OWNER_B, "inventory").unwrap();
    assert_ne!(addr_a, addr_b);
    assert_ne!(fp_a, fp_b);
}

#[test]
fn name_over_the_bound_is_rejected() {
    let long_name = "x".repeat(MAX_NAME_LEN + 1);
    match mojo_world::pda::derive(&OWNER_A, &long_name) {
        Err(WorldError::InvalidNameLength(got, bound)) => {
            assert_eq!(got, MAX_NAME_LEN + 1);
            assert_eq!(bound, MAX_NAME_LEN);
        }
        other => panic!("expected an invalid-name-length error, got {:?}", other),
    }
    // The bound is on the encoded length, and a name at the bound passes.
    let name_at_bound = "y".repeat(MAX_NAME_LEN);
    assert!(mojo_world::pda::derive(&OWNER_A, &name_at_bound).is_ok());
}

#[test]
fn fingerprint_is_thirty_two_bytes_and_name_sensitive() {
    let fp = world_seed_hash(&OWNER_A, "");
    assert_eq!(fp.len(), 32);
    assert_ne!(fp, OWNER_A);
    assert_ne!(world_seed_hash(&OWNER_A, ""), world_seed_hash(&OWNER_A, "z"));
}
