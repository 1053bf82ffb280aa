use vstd::prelude::*;

use crate::ids::{DateTime, ProjectUuid, TestbedUuid, UserUuid};
use crate::valid::{NonEmpty, Slug};

verus! {

/// Name and slug of the testbed that every project has for the local machine.
pub const TESTBED_LOCALHOST_STR: &'static str = "localhost";

/// A user as the API shows it.
#[derive(Debug)]
pub struct JsonUser {
    pub uuid: UserUuid,
    pub name: String,
    pub slug: String,
    pub email: String,
    pub admin: bool,
    pub locked: bool,
}

/// A testbed as the API shows it.
#[derive(Debug)]
pub struct JsonTestbed {
    pub uuid: TestbedUuid,
    pub project: ProjectUuid,
    pub name: NonEmpty,
    pub slug: Slug,
    pub created: DateTime,
    pub modified: DateTime,
}

/// A request to create a testbed; without a slug, one is derived from the name.
#[derive(Debug)]
pub struct JsonNewTestbed {
    pub name: NonEmpty,
    pub slug: Option<Slug>,
}

impl JsonNewTestbed {
    /// The request for the testbed of the local machine: name and slug `localhost`.
    pub fn localhost() -> (testbed: JsonNewTestbed)
        ensures
            testbed.name@ == TESTBED_LOCALHOST_STR@,
            testbed.slug matches Some(slug) && slug@ == TESTBED_LOCALHOST_STR@,
    {
        let name = NonEmpty::parse(TESTBED_LOCALHOST_STR);
        proof {
            reveal_strlit("localhost");
        }
        match name {
            Ok(name) => JsonNewTestbed { name, slug: Some(Slug::new(TESTBED_LOCALHOST_STR)) },
            Err(_) => vstd::pervasive::unreached(),
        }
    }
}

/// A request to change a testbed; absent fields stay as they are.
#[derive(Debug)]
pub struct JsonUpdateTestbed {
    pub name: Option<NonEmpty>,
    pub slug: Option<Slug>,
}

} // verus!
