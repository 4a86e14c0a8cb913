//! A worked schema: a profile that had only a name at first and got an age
//! later.
//!
//! Its impls have the form of the generated ones, with contracts: they show
//! what an implementation of the migration contracts owes, and that the
//! laws of a versioned round trip are met.

use vstd::prelude::*;
use crate::error::VersionConversionError;
use crate::laws::{
    copies_back, dispatches, law_generated_round_trip, projects_as, survives_migration,
};
use crate::tag::{slot_tag, tag_text};
use crate::versioned::{is_slot_migration, migrate_slot, FromVersion, Versioned};

verus! {

/// The first shape: a name.
#[derive(Clone, Debug, PartialEq, Eq)]
pub struct ProfileV1 {
    pub name: String,
}

/// The second shape: a name and an age.
#[derive(Clone, Debug, PartialEq, Eq)]
pub struct ProfileV2 {
    pub name: String,
    pub age: u32,
}

/// The current type; it has the shape of the last slot.
#[derive(Clone, Debug, PartialEq, Eq)]
pub struct Profile {
    pub name: String,
    pub age: u32,
}

/// The version union of [`Profile`].
#[derive(Clone, Debug, PartialEq, Eq)]
pub enum ProfileVersion {
    Version1(ProfileV1),
    Version2(ProfileV2),
}

/// The number of slots of the union.
pub open spec fn slot_count() -> nat {
    2
}

/// The 1-based slot of a union value.
pub open spec fn slot_of(version: ProfileVersion) -> nat {
    match version {
        ProfileVersion::Version1(_) => 1,
        ProfileVersion::Version2(_) => 2,
    }
}

/// The current value that a union value migrates to: a profile of the first
/// shape gets the age 0.
pub open spec fn migrated(version: ProfileVersion) -> Profile {
    match version {
        ProfileVersion::Version1(v) => Profile { name: v.name, age: 0 },
        ProfileVersion::Version2(v) => Profile { name: v.name, age: v.age },
    }
}

/// The copy of a current value in the shape of the last slot, field for
/// field.
pub open spec fn copied(profile: Profile) -> ProfileV2 {
    ProfileV2 { name: profile.name, age: profile.age }
}

/// The union value that a current value is projected into: its copy, in
/// the variant of the last slot.
pub open spec fn projected(profile: Profile) -> ProfileVersion {
    ProfileVersion::Version2(copied(profile))
}

impl FromVersion<Profile> for ProfileV1 {
    fn convert(self) -> (profile: Profile)
        ensures
            profile == migrated(ProfileVersion::Version1(self)),
    {
        Profile { name: self.name, age: 0 }
    }
}

impl FromVersion<Profile> for ProfileV2 {
    fn convert(self) -> (profile: Profile)
        ensures
            profile == migrated(ProfileVersion::Version2(self)),
    {
        Profile { name: self.name, age: self.age }
    }
}

impl Versioned for Profile {
    type VersionEnum = ProfileVersion;

    type Cause = String;

    fn from_version(version: ProfileVersion) -> (outcome: Result<
        Profile,
        VersionConversionError<String>,
    >)
        ensures
            outcome == Ok::<Profile, VersionConversionError<String>>(migrated(version)),
            match version {
                ProfileVersion::Version1(first) => is_slot_migration::<ProfileV1, Profile, String>(
                    first,
                    outcome,
                ),
                ProfileVersion::Version2(last) => is_slot_migration::<ProfileV2, Profile, String>(
                    last,
                    outcome,
                ),
            },
    {
        match version {
            ProfileVersion::Version1(v) => migrate_slot(v),
            ProfileVersion::Version2(v) => migrate_slot(v),
        }
    }

    fn to_version(&self) -> (version: ProfileVersion)
        ensures
            version == projected(*self),
    {
        ProfileVersion::Version2(ProfileV2 { name: self.name.clone(), age: self.age })
    }

    fn extract_version_string(version: &ProfileVersion) -> (tag: String)
        ensures
            tag@ == tag_text(slot_of(*version)),
    {
        match version {
            ProfileVersion::Version1(_) => slot_tag(1),
            ProfileVersion::Version2(_) => slot_tag(2),
        }
    }
}

/// The impls of the profile have the generated form: the projection wraps
/// the copy in the variant of the last slot, and each variant is migrated
/// through the edge of its own shape.
pub proof fn law_profile_has_generated_form()
    ensures
        projects_as::<Profile, ProfileV2>(
            |profile: Profile| copied(profile),
            |last: ProfileV2| ProfileVersion::Version2(last),
        ),
        dispatches::<Profile, ProfileV1>(|first: ProfileV1| ProfileVersion::Version1(first)),
        dispatches::<Profile, ProfileV2>(|last: ProfileV2| ProfileVersion::Version2(last)),
{
}

/// The edge of the last shape gives every profile back from its copy.
pub proof fn law_profile_copy_comes_back(profile: Profile)
    ensures
        copies_back::<Profile, ProfileV2>(|profile: Profile| copied(profile), profile),
{
}

/// Every profile survives its own migration: projecting it and migrating
/// the projection gives it back.
pub proof fn law_profile_round_trip(profile: Profile)
    ensures
        migrated(projected(profile)) == profile,
        survives_migration(profile),
{
    law_profile_has_generated_form();
    law_profile_copy_comes_back(profile);
    law_generated_round_trip::<Profile, ProfileV2>(
        profile,
        |profile: Profile| copied(profile),
        |last: ProfileV2| ProfileVersion::Version2(last),
    );
}

/// The projection of every profile lies in the last slot.
pub proof fn law_profile_projection_is_latest(profile: Profile)
    ensures
        slot_of(projected(profile)) == slot_count(),
{
}

} // verus!
