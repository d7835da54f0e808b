use mojo_world::badges::BadgeCollectionMetadata;
use mojo_world::badges::BadgeMetadata;
use mojo_world::badges::QualifyingAction;
use mojo_world::error::WorldError;
use mojo_world::profile::ImageSource;
use mojo_world::profile::MAX_IMAGE_SIZE;
use mojo_world::profile::Metadata;
use mojo_world::profile::validate_image;

// A valid 1x1 RGB PNG, signature through IEND.
const TINY_PNG: [u8; 69] = [
    137, 80, 78, 71, 13, 10, 26, 10, 0, 0, 0, 13, 73, 72, 68, 82, 0, 0, 0, 1, 0, 0, 0, 1, 8, 2,
    0, 0, 0, 144, 119, 83, 222, 0, 0, 0, 12, 73, 68, 65, 84, 120, 156, 99, 248, 207, 192, 0, 0,
    3, 1, 1, 0, 201, 254, 146, 239, 0, 0, 0, 0, 73, 69, 78, 68, 174, 66, 96, 130,
];

#[test]
fn valid_png_passes_validation() {
    assert!(validate_image(&TINY_PNG).is_ok());
}

#[test]
fn garbage_bytes_fail_validation() {
    match validate_image(&[0, 1, 2, 3, 4, 5, 6, 7]) {
        Err(WorldError::InvalidImageFormat(_)) => {}
        other => panic!("expected an invalid-image-format error, got {:?}", other),
    }
}

#[test]
fn oversized_image_fails_validation() {
    let data = vec![0u8; MAX_IMAGE_SIZE + 1];
    match validate_image(&data) {
        Err(WorldError::ImageTooLarge(got, bound)) => {
            assert_eq!(got, MAX_IMAGE_SIZE + 1);
            assert_eq!(bound, MAX_IMAGE_SIZE);
        }
        other => panic!("expected an image-too-large error, got {:?}", other),
    }
}

#[test]
fn image_sources_keep_their_values() {
    assert_eq!(
        ImageSource::from_path("img/pic.png"),
        ImageSource::LocalFile("img/pic.png".to_string())
    );
    assert_eq!(
        ImageSource::from_url("https://img.example/pic.png"),
        ImageSource::Url("https://img.example/pic.png".to_string())
    );
}

#[test]
fn profile_metadata_defaults() {
    let m = Metadata::new("pfp", None, "https://img.example/1.png");
    assert_eq!(m.name, "pfp");
    assert_eq!(m.description, "Profile picture NFT");
    assert_eq!(m.image, "https://img.example/1.png");
    assert_eq!(m.properties.asset_type, "profile_picture");

    let m2 = Metadata::new("pfp", Some("mine"), "u");
    assert_eq!(m2.description, "mine");
}

#[test]
fn badge_metadata_defaults() {
    let b = BadgeMetadata::new("first-win", None, "u", QualifyingAction::named("win"));
    assert_eq!(b.description, "Badge");
    assert_eq!(b.properties.asset_type, "badge");
    assert_eq!(
        b.properties.qualifying_action,
        Some(QualifyingAction::Named("win".to_string()))
    );

    let c = BadgeCollectionMetadata::new("season-one", None, "u");
    assert_eq!(c.description, "Badge collection");
    assert_eq!(c.properties.asset_type, "badge_collection");
    assert_eq!(c.properties.qualifying_action, None);

    let c2 = BadgeCollectionMetadata::new("season-two", Some("all badges"), "u");
    assert_eq!(c2.description, "all badges");
}

#[test]
fn qualifying_action_variants() {
    assert_eq!(
        QualifyingAction::named("quest"),
        QualifyingAction::Named("quest".to_string())
    );
    assert_ne!(QualifyingAction::named("quest"), QualifyingAction::Id(3));
}
