use mojo_world::codec::MojoState;
use mojo_world::codec::StateLayout;
use mojo_world::error::WorldError;

#[test]
fn mojo_preferred() {
    // A person record of three byte-array fields: 8 + 8 + 1 bytes.
    let mut new_guy = MojoState::new();
    new_guy.push_bytes(&259u64.to_le_bytes());
    new_guy.push_bytes(&5674u64.to_le_bytes());
    new_guy.push_bytes(&0u8.to_le_bytes());

    println!("Bytes: {:?}", new_guy.to_bytes());
    println!("Size: {}", new_guy.len());

    assert_eq!(
        new_guy.to_bytes(),
        [3, 1, 0, 0, 0, 0, 0, 0, 42, 22, 0, 0, 0, 0, 0, 0, 0],
        "Values aren't equal"
    );

    assert_eq!(new_guy.len(), 17, "Length aren't the same");
}

#[test]
fn mojo_enumish() {
    // A person record of two u64 fields, one u8 ability flag, and 7 bytes of
    // explicit padding: 24 bytes in all.
    let can_fly: u8 = 0;
    let mut person = MojoState::new();
    person.push_u64_le(180);
    person.push_u64_le(75);
    person.push_u8(can_fly);
    person.push_bytes(&[0; 7]);

    println!("Bytes: {:?}", person.to_bytes());
    println!("Size: {}", person.len());

    assert_eq!(
        person.to_bytes(),
        [180, 0, 0, 0, 0, 0, 0, 0, 75, 0, 0, 0, 0, 0, 0, 0, 0, 0, 0, 0, 0, 0, 0, 0],
        "Values aren't same"
    );

    assert_eq!(person.len(), 24, "Length aren't the same");
}

#[test]
fn round_trip_exact_bytes() {
    let mut v = MojoState::new();
    v.push_u64_le(1234567890123456789);
    v.push_u32_le(42);
    v.push_u8(7);
    let layout = StateLayout::new(13);
    assert_eq!(layout.size_of(), 13);
    let decoded = layout.from_bytes(v.to_bytes()).unwrap();
    assert_eq!(decoded, v);
}

#[test]
fn round_trip_ignores_trailing_bytes() {
    let mut v = MojoState::new();
    v.push_u64_le(99);
    v.push_u64_le(100);
    let layout = StateLayout::new(16);
    let mut raw = v.to_bytes().to_vec();
    raw.extend_from_slice(&[0xde, 0xad, 0xbe, 0xef, 0x01]);
    let decoded = layout.from_bytes(&raw).unwrap();
    assert_eq!(decoded, v);
}

#[test]
fn from_bytes_fails_on_every_shorter_buffer() {
    for n in 1usize..=9 {
        let layout = StateLayout::new(n);
        for len in 0..n {
            let raw = vec![0xabu8; len];
            match layout.from_bytes(&raw) {
                Err(WorldError::SizeMismatch(got, need)) => {
                    assert_eq!(got, len);
                    assert_eq!(need, n);
                }
                other => panic!("expected a size mismatch, got {:?}", other),
            }
        }
        // Exactly n bytes decode.
        let raw = vec![0xabu8; n];
        assert!(layout.from_bytes(&raw).is_ok());
    }
}

#[test]
fn default_value_is_zeroed_image() {
    let layout = StateLayout::new(5);
    let v = layout.default_value();
    assert_eq!(v.to_bytes(), [0, 0, 0, 0, 0]);
    assert_eq!(v.len(), 5);
}

#[test]
fn empty_layout_decodes_empty_value() {
    let layout = StateLayout::new(0);
    let v = layout.from_bytes(&[]).unwrap();
    assert_eq!(v.len(), 0);
    assert_eq!(v, MojoState::new());
}
