//! Badge metadata values: plain data the badge-minting workflow serializes
//! and uploads.  Building them is pure; the minting itself is an external
//! workflow over a third-party asset program.

use vstd::prelude::*;

verus! {

/// What a badge is awarded for: a named action or a numbered one.
#[derive(Debug, Clone, PartialEq, Eq)]
pub enum QualifyingAction {
    Named(String),
    Id(u32),
}

impl QualifyingAction {
    /// The action named `value`.
    pub fn named(value: &str) -> (r: Self)
        ensures
            r matches QualifyingAction::Named(s) && s@ == value@,
    {
        QualifyingAction::Named(value.to_owned())
    }
}

/// The off-ledger metadata record of a badge collection.
#[derive(Debug, Clone, PartialEq, Eq)]
pub struct BadgeCollectionMetadata {
    pub name: String,
    pub description: String,
    pub image: String,
    pub properties: BadgeMetadataProperties,
}

/// The off-ledger metadata record of one badge.
#[derive(Debug, Clone, PartialEq, Eq)]
pub struct BadgeMetadata {
    pub name: String,
    pub description: String,
    pub image: String,
    pub properties: BadgeMetadataProperties,
}

/// The typed properties block of a badge or badge-collection record.
#[derive(Debug, Clone, PartialEq, Eq)]
pub struct BadgeMetadataProperties {
    pub asset_type: String,
    pub qualifying_action: Option<QualifyingAction>,
}

impl BadgeCollectionMetadata {
    /// A collection record from its name, optional description and image
    /// URI; the description defaults to "Badge collection".
    pub fn new(name: &str, description: Option<&str>, image_uri: &str) -> (r: Self)
        ensures
            r.name@ == name@,
            (match description {
                Some(d) => r.description@ == d@,
                None => r.description@ == "Badge collection"@,
            }),
            r.image@ == image_uri@,
            r.properties.asset_type@ == "badge_collection"@,
            r.properties.qualifying_action is None,
    {
        let description = match description {
            Some(d) => d.to_owned(),
            None => "Badge collection".to_owned(),
        };
        BadgeCollectionMetadata {
            name: name.to_owned(),
            description,
            image: image_uri.to_owned(),
            properties: BadgeMetadataProperties {
                asset_type: "badge_collection".to_owned(),
                qualifying_action: None,
            },
        }
    }
}

impl BadgeMetadata {
    /// A badge record from its name, optional description, image URI and
    /// qualifying action; the description defaults to "Badge".
    pub fn new(
        name: &str,
        description: Option<&str>,
        image_uri: &str,
        qualifying_action: QualifyingAction,
    ) -> (r: Self)
        ensures
            r.name@ == name@,
            (match description {
                Some(d) => r.description@ == d@,
                None => r.description@ == "Badge"@,
            }),
            r.image@ == image_uri@,
            r.properties.asset_type@ == "badge"@,
            r.properties.qualifying_action == Some(qualifying_action),
    {
        let description = match description {
            Some(d) => d.to_owned(),
            None => "Badge".to_owned(),
        };
        BadgeMetadata {
            name: name.to_owned(),
            description,
            image: image_uri.to_owned(),
            properties: BadgeMetadataProperties {
                asset_type: "badge".to_owned(),
                qualifying_action: Some(qualifying_action),
            },
        }
    }
}

} // verus!
