use vstd::prelude::*;

use crate::valid::{is_valid_slug, spec_is_valid_slug, ValidError};

verus! {

/// Whether the 128 bits of a UUID carry version 4 and the RFC 4122 variant.
pub open spec fn is_v4_uuid(bits: u128) -> bool {
    &&& (bits >> 76u128) & 0xfu128 == 4u128
    &&& (bits >> 62u128) & 0x3u128 == 2u128
}

/// `uuid::Uuid::new_v4`, taken as its 128-bit value (`Uuid::as_u128`).
/// The value rests on chance; what holds of every outcome is that `new_v4`
/// masks in the version nibble 4 and the variant bits `10`, and that is all
/// this contract claims.
#[verifier::external_body]
fn random_v4_uuid() -> (bits: u128)
    ensures
        is_v4_uuid(bits),
{
    uuid::Uuid::new_v4().as_u128()
}

/// What `uuid::Uuid::parse_str` gives for a text, as its 128-bit value, or
/// `None` where it returns an error.
pub uninterp spec fn uuid_parse(text: Seq<char>) -> Option<u128>;

/// `uuid::Uuid::parse_str`: the UUID that `text` writes (simple, hyphenated,
/// braced or URN form), as its 128-bit value, and `None` on any parse error.
/// The contract only names the result: the accepted grammar is left unsaid.
#[verifier::external_body]
fn parse_uuid(text: &str) -> (bits: Option<u128>)
    ensures
        bits == uuid_parse(text@),
{
    match uuid::Uuid::parse_str(text) {
        Ok(uuid) => Some(uuid.as_u128()),
        Err(_) => None,
    }
}

/// The system clock's `std::time::SystemTime`, carried through opaquely.
#[verifier::external_type_specification]
#[verifier::external_body]
pub struct ExSystemTime(std::time::SystemTime);

/// `std::time::SystemTime::now`: the current reading of the system clock.
/// The reading rests on the clock; nothing is stated of it.
#[verifier::external_body]
fn system_time_now() -> (now: std::time::SystemTime) {
    std::time::SystemTime::now()
}

/// `std::time::SystemTime::duration_since` from `UNIX_EPOCH`, as whole
/// seconds (`Duration::as_secs`), and `None` where the reading lies before
/// the epoch (where `duration_since` returns an error). It does not panic.
/// Which reading gives which value is left unsaid.
#[verifier::external_body]
fn seconds_since_epoch(time: &std::time::SystemTime) -> (seconds: Option<u64>) {
    match time.duration_since(std::time::UNIX_EPOCH) {
        Ok(duration) => Some(duration.as_secs()),
        Err(_) => None,
    }
}

/// Row id of a testbed.
#[derive(Debug, Clone, Copy, PartialEq, Eq, Hash, Structural)]
pub struct TestbedId(pub i32);

/// Row id of a project.
#[derive(Debug, Clone, Copy, PartialEq, Eq, Hash, Structural)]
pub struct ProjectId(pub i32);

/// Public identifier of a testbed: the 128 bits of a UUID.
#[derive(Debug, Clone, Copy, PartialEq, Eq, Hash, Structural)]
pub struct TestbedUuid(pub u128);

/// Public identifier of a project: the 128 bits of a UUID.
#[derive(Debug, Clone, Copy, PartialEq, Eq, Hash, Structural)]
pub struct ProjectUuid(pub u128);

/// Public identifier of a user: the 128 bits of a UUID.
#[derive(Debug, Clone, Copy, PartialEq, Eq, Hash, Structural)]
pub struct UserUuid(pub u128);

impl TestbedUuid {
    /// A fresh random (version 4) testbed UUID.
    pub fn new() -> (uuid: TestbedUuid)
        ensures
            is_v4_uuid(uuid.0),
    {
        TestbedUuid(random_v4_uuid())
    }
}

/// A point in time, in whole seconds since the Unix epoch.
#[derive(Debug, Clone, Copy, PartialEq, Eq, Hash, Structural)]
pub struct DateTime(pub i64);

impl DateTime {
    /// The time `seconds` whole seconds after the epoch, when it fits.
    pub fn from_epoch_seconds(seconds: u64) -> (time: Option<DateTime>)
        ensures
            seconds <= i64::MAX ==> time == Some(DateTime(seconds as i64)),
            seconds > i64::MAX ==> time is None,
    {
        if seconds <= i64::MAX as u64 {
            Some(DateTime(seconds as i64))
        } else {
            None
        }
    }

    /// The current time, read from the system clock; `None` when the clock
    /// reads before the epoch or beyond what whole seconds in an `i64` hold.
    pub fn now() -> (now: Option<DateTime>)
        ensures
            now matches Some(t) ==> t.0 >= 0,
    {
        let reading = system_time_now();
        match seconds_since_epoch(&reading) {
            Some(seconds) => Self::from_epoch_seconds(seconds),
            None => None,
        }
    }
}

/// How a resource id names a resource: by UUID or by slug.
#[derive(Debug, PartialEq, Eq)]
pub enum ResourceIdKind {
    Uuid(u128),
    Slug(String),
}

impl Clone for ResourceIdKind {
    fn clone(&self) -> (res: Self)
        ensures
            res == *self,
    {
        match self {
            ResourceIdKind::Uuid(bits) => ResourceIdKind::Uuid(*bits),
            ResourceIdKind::Slug(slug) => ResourceIdKind::Slug(slug.clone()),
        }
    }
}

/// `res` is how a resource id with text `text` names its resource, where
/// `parsed` is what the UUID parser gave for the text and `slug_valid` says
/// whether it is a valid slug: by UUID when it parsed, else by slug when it
/// is a valid one, else it is refused.
pub open spec fn resource_id_outcome(
    text: Seq<char>,
    parsed: Option<u128>,
    slug_valid: bool,
    res: Result<ResourceIdKind, ValidError>,
) -> bool {
    match parsed {
        Some(bits) => res == Ok::<ResourceIdKind, ValidError>(ResourceIdKind::Uuid(bits)),
        None => if slug_valid {
            res matches Ok(ResourceIdKind::Slug(s)) && s@ == text
        } else {
            res matches Err(e) && e is ResourceId && e.rejected() == text
        },
    }
}

impl ResourceIdKind {
    /// Decides how a resource id with text `text` names its resource, given
    /// what the UUID parser gave for it and whether it is a valid slug.
    pub fn from_parsed(text: &str, parsed: Option<u128>, slug_valid: bool) -> (res: Result<ResourceIdKind, ValidError>)
        ensures
            resource_id_outcome(text@, parsed, slug_valid, res),
    {
        match parsed {
            Some(bits) => Ok(ResourceIdKind::Uuid(bits)),
            None => if slug_valid {
                Ok(ResourceIdKind::Slug(text.to_owned()))
            } else {
                Err(ValidError::ResourceId(text.to_owned()))
            },
        }
    }
}

/// A resource named in a request path: either a UUID or a slug, as text.
#[derive(Debug, PartialEq, Eq)]
pub struct ResourceId(String);

impl View for ResourceId {
    type V = Seq<char>;

    closed spec fn view(&self) -> Seq<char> {
        self.0@
    }
}

impl Clone for ResourceId {
    fn clone(&self) -> (res: Self)
        ensures
            res == *self,
    {
        ResourceId(self.0.clone())
    }
}

impl ResourceId {
    /// A resource id with the given text.
    pub fn new(text: &str) -> (id: ResourceId)
        ensures
            id@ == text@,
    {
        ResourceId(text.to_owned())
    }

    /// How the id names its resource: by the UUID it parses as, else by the
    /// slug it is; a text that is neither is refused.
    pub fn kind(&self) -> (res: Result<ResourceIdKind, ValidError>)
        ensures
            resource_id_outcome(self@, uuid_parse(self@), spec_is_valid_slug(self@), res),
    {
        let parsed = parse_uuid(self.0.as_str());
        let slug_valid = is_valid_slug(self.0.as_str());
        ResourceIdKind::from_parsed(self.0.as_str(), parsed, slug_valid)
    }
}

} // verus!
