use vstd::prelude::*;

use crate::ids::{
    is_v4_uuid, resource_id_outcome, uuid_parse, DateTime, ProjectId, ProjectUuid, ResourceId,
    ResourceIdKind, TestbedId, TestbedUuid,
};
use crate::json::{JsonNewTestbed, JsonTestbed, JsonUpdateTestbed, TESTBED_LOCALHOST_STR};
use crate::valid::{hex8, slugify_text, spec_is_valid_slug, NonEmpty, Slug, ValidError};

verus! {

/// The key of a lookup: what was looked for.
#[derive(Debug, PartialEq, Eq)]
pub enum LookupKey {
    /// The project with this row id.
    Project(ProjectId),
    /// The testbed of this project with this UUID.
    TestbedUuid(ProjectId, TestbedUuid),
    /// The testbed of this project named by this UUID or slug.
    TestbedResourceKind(ProjectId, ResourceIdKind),
    /// The testbed of this project named by this resource id, as given.
    TestbedResourceId(ProjectId, ResourceId),
}

/// Why a lookup failed.
#[derive(Debug, PartialEq, Eq)]
pub enum QueryError {
    /// Nothing matches the key.
    NotFound(LookupKey),
    /// The resource id is neither a UUID nor a valid slug.
    InvalidResourceId(ValidError),
}

/// A project row, as far as testbeds refer to it.
#[derive(Debug, Clone, Copy, PartialEq, Eq, Structural)]
pub struct QueryProject {
    pub id: ProjectId,
    pub uuid: ProjectUuid,
}

/// `res` is what a lookup of the first project with row id `id` in
/// `projects` gives: the UUID of the first such project, or not found, with
/// the id as key, when there is none.
pub open spec fn project_lookup(projects: Seq<QueryProject>, id: ProjectId, res: Result<ProjectUuid, QueryError>) -> bool {
    match res {
        Ok(uuid) => exists|i: int|
            0 <= i < projects.len() && #[trigger] projects[i].id == id && projects[i].uuid == uuid
                && forall|j: int| 0 <= j < i ==> projects[j].id != id,
        Err(e) => e == QueryError::NotFound(LookupKey::Project(id)) && forall|i: int|
            0 <= i < projects.len() ==> #[trigger] projects[i].id != id,
    }
}

impl QueryProject {
    /// The UUID of the project with row id `id` among `projects`.
    pub fn get_uuid(projects: &Vec<QueryProject>, id: ProjectId) -> (res: Result<ProjectUuid, QueryError>)
        ensures
            project_lookup(projects@, id, res),
    {
        let mut i: usize = 0;
        while i < projects.len()
            invariant
                i <= projects.len(),
                forall|j: int| 0 <= j < i ==> #[trigger] projects@[j].id != id,
            decreases projects.len() - i,
        {
            if projects[i].id == id {
                return Ok(projects[i].uuid);
            }
            i = i + 1;
        }
        Err(QueryError::NotFound(LookupKey::Project(id)))
    }
}

/// A testbed row.
#[derive(Debug)]
pub struct QueryTestbed {
    pub id: TestbedId,
    pub uuid: TestbedUuid,
    pub project_id: ProjectId,
    pub name: NonEmpty,
    pub slug: Slug,
    pub created: DateTime,
    pub modified: DateTime,
}

impl Clone for QueryTestbed {
    fn clone(&self) -> (res: Self)
        ensures
            res == *self,
    {
        QueryTestbed {
            id: self.id,
            uuid: self.uuid,
            project_id: self.project_id,
            name: self.name.clone(),
            slug: self.slug.clone(),
            created: self.created,
            modified: self.modified,
        }
    }
}

/// Whether the testbed row belongs to project `project_id` and has UUID `uuid`.
pub open spec fn testbed_has_uuid(row: QueryTestbed, project_id: ProjectId, uuid: TestbedUuid) -> bool {
    row.project_id == project_id && row.uuid == uuid
}

/// Whether the testbed row belongs to project `project_id` and is named by
/// a resource id of kind `kind`: by its UUID, or by its slug.
pub open spec fn testbed_has_resource_id(row: QueryTestbed, project_id: ProjectId, kind: ResourceIdKind) -> bool {
    row.project_id == project_id && match kind {
        ResourceIdKind::Uuid(bits) => row.uuid == TestbedUuid(bits),
        ResourceIdKind::Slug(slug) => row.slug@ == slug@,
    }
}

/// `res` is what a lookup of the first row of `rows` that satisfies `wanted`
/// gives: that row, or not found with key `key` when no row satisfies it.
pub open spec fn testbed_lookup(
    rows: Seq<QueryTestbed>,
    wanted: spec_fn(QueryTestbed) -> bool,
    key: LookupKey,
    res: Result<QueryTestbed, QueryError>,
) -> bool {
    match res {
        Ok(row) => exists|i: int|
            0 <= i < rows.len() && #[trigger] rows[i] == row && wanted(row)
                && forall|j: int| 0 <= j < i ==> !wanted(#[trigger] rows[j]),
        Err(e) => e == QueryError::NotFound(key) && forall|i: int|
            0 <= i < rows.len() ==> !wanted(#[trigger] rows[i]),
    }
}

/// The JSON form of testbed row `row` of the project with UUID `project`.
pub open spec fn spec_testbed_json(row: QueryTestbed, project: ProjectUuid) -> JsonTestbed {
    JsonTestbed {
        uuid: row.uuid,
        project,
        name: row.name,
        slug: row.slug,
        created: row.created,
        modified: row.modified,
    }
}

impl QueryTestbed {
    /// Whether the testbed is the one the system keeps for the local
    /// machine: its name or its slug is `localhost`.
    pub open spec fn spec_is_system(&self) -> bool {
        self.name@ == TESTBED_LOCALHOST_STR@ || self.slug@ == TESTBED_LOCALHOST_STR@
    }

    /// The row that storing `insert` under row id `id` gives.
    pub open spec fn stored(id: TestbedId, insert: InsertTestbed) -> QueryTestbed {
        QueryTestbed {
            id,
            uuid: insert.uuid,
            project_id: insert.project_id,
            name: insert.name,
            slug: insert.slug,
            created: insert.created,
            modified: insert.modified,
        }
    }

    /// The first row of `rows` that belongs to project `project_id` and has UUID `uuid`.
    pub fn from_uuid(rows: &Vec<QueryTestbed>, project_id: ProjectId, uuid: TestbedUuid) -> (res: Result<QueryTestbed, QueryError>)
        ensures
            testbed_lookup(
                rows@,
                |row: QueryTestbed| testbed_has_uuid(row, project_id, uuid),
                LookupKey::TestbedUuid(project_id, uuid),
                res,
            ),
    {
        let ghost wanted = |row: QueryTestbed| testbed_has_uuid(row, project_id, uuid);
        let mut i: usize = 0;
        while i < rows.len()
            invariant
                i <= rows.len(),
                wanted == (|row: QueryTestbed| testbed_has_uuid(row, project_id, uuid)),
                forall|j: int| 0 <= j < i ==> !wanted(#[trigger] rows@[j]),
            decreases rows.len() - i,
        {
            if rows[i].project_id == project_id && rows[i].uuid == uuid {
                let row = rows[i].clone();
                assert(rows@[i as int] == row);
                return Ok(row);
            }
            i = i + 1;
        }
        Err(QueryError::NotFound(LookupKey::TestbedUuid(project_id, uuid)))
    }

    /// The first row of `rows` that belongs to project `project_id` and is
    /// named by a resource id of kind `kind`.
    pub fn from_resource_kind(rows: &Vec<QueryTestbed>, project_id: ProjectId, kind: &ResourceIdKind) -> (res: Result<QueryTestbed, QueryError>)
        ensures
            testbed_lookup(
                rows@,
                |row: QueryTestbed| testbed_has_resource_id(row, project_id, *kind),
                LookupKey::TestbedResourceKind(project_id, *kind),
                res,
            ),
    {
        let ghost wanted = |row: QueryTestbed| testbed_has_resource_id(row, project_id, *kind);
        let mut i: usize = 0;
        while i < rows.len()
            invariant
                i <= rows.len(),
                wanted == (|row: QueryTestbed| testbed_has_resource_id(row, project_id, *kind)),
                forall|j: int| 0 <= j < i ==> !wanted(#[trigger] rows@[j]),
            decreases rows.len() - i,
        {
            let named = match kind {
                ResourceIdKind::Uuid(bits) => rows[i].uuid == TestbedUuid(*bits),
                ResourceIdKind::Slug(slug) => rows[i].slug.eq_str(slug.as_str()),
            };
            if rows[i].project_id == project_id && named {
                let row = rows[i].clone();
                assert(rows@[i as int] == row);
                return Ok(row);
            }
            i = i + 1;
        }
        Err(QueryError::NotFound(LookupKey::TestbedResourceKind(project_id, kind.clone())))
    }

    /// The first row of `rows` that belongs to project `project_id` and is
    /// named by `testbed`: by UUID when its text parses as one, else by slug
    /// when it is a valid one; a resource id that is neither is refused.
    pub fn from_resource_id(rows: &Vec<QueryTestbed>, project_id: ProjectId, testbed: &ResourceId) -> (res: Result<QueryTestbed, QueryError>)
        ensures
            exists|kind: Result<ResourceIdKind, ValidError>|
                resource_id_outcome(testbed@, uuid_parse(testbed@), spec_is_valid_slug(testbed@), kind)
                && match kind {
                    Ok(kind) => testbed_lookup(
                        rows@,
                        |row: QueryTestbed| testbed_has_resource_id(row, project_id, kind),
                        LookupKey::TestbedResourceId(project_id, *testbed),
                        res,
                    ),
                    Err(e) => res == Err::<QueryTestbed, QueryError>(QueryError::InvalidResourceId(e)),
                },
    {
        match testbed.kind() {
            Ok(kind) => match Self::from_resource_kind(rows, project_id, &kind) {
                Ok(row) => Ok(row),
                Err(_) => Err(QueryError::NotFound(LookupKey::TestbedResourceId(project_id, testbed.clone()))),
            },
            Err(e) => Err(QueryError::InvalidResourceId(e)),
        }
    }

    /// The JSON form of the testbed, with the UUID of its project looked up in `projects`.
    pub fn into_json(self, projects: &Vec<QueryProject>) -> (res: Result<JsonTestbed, QueryError>)
        ensures
            exists|project: Result<ProjectUuid, QueryError>|
                project_lookup(projects@, self.project_id, project) && match project {
                    Ok(uuid) => res == Ok::<JsonTestbed, QueryError>(spec_testbed_json(self, uuid)),
                    Err(e) => res == Err::<JsonTestbed, QueryError>(e),
                },
    {
        let QueryTestbed { uuid, project_id, name, slug, created, modified, .. } = self;
        let project = QueryProject::get_uuid(projects, project_id);
        match project {
            Ok(project) => Ok(JsonTestbed { uuid, project, name, slug, created, modified }),
            Err(e) => Err(e),
        }
    }

    /// Whether the testbed is the one for the local machine.
    pub fn is_system(&self) -> (system: bool)
        ensures
            system == self.spec_is_system(),
    {
        self.name.eq_str(TESTBED_LOCALHOST_STR) || self.slug.eq_str(TESTBED_LOCALHOST_STR)
    }
}

/// Whether a testbed of project `project_id` among `rows` has slug `slug`.
pub open spec fn spec_slug_taken(rows: Seq<QueryTestbed>, project_id: ProjectId, slug: Seq<char>) -> bool {
    exists|i: int| 0 <= i < rows.len() && #[trigger] rows[i].project_id == project_id && rows[i].slug@ == slug
}

/// The length of the longest slug among `rows`.
pub open spec fn max_slug_len(rows: Seq<QueryTestbed>) -> nat
    decreases rows.len(),
{
    if rows.len() == 0 {
        0
    } else {
        let rest = max_slug_len(rows.drop_last());
        let last = rows.last().slug@.len();
        if last > rest { last } else { rest }
    }
}

/// No slug among `rows` is longer than `max_slug_len(rows)`.
pub proof fn lemma_slug_len_bounded(rows: Seq<QueryTestbed>, i: int)
    requires
        0 <= i < rows.len(),
    ensures
        rows[i].slug@.len() <= max_slug_len(rows),
    decreases rows.len(),
{
    if i < rows.len() - 1 {
        lemma_slug_len_bounded(rows.drop_last(), i);
        assert(rows.drop_last()[i] == rows[i]);
    }
}

/// A slug that is taken is no longer than the longest slug.
pub proof fn lemma_taken_len(rows: Seq<QueryTestbed>, project_id: ProjectId, slug: Seq<char>)
    requires
        spec_slug_taken(rows, project_id, slug),
    ensures
        slug.len() <= max_slug_len(rows),
{
    let i = choose|i: int| 0 <= i < rows.len() && #[trigger] rows[i].project_id == project_id && rows[i].slug@ == slug;
    lemma_slug_len_bounded(rows, i);
}

/// The `r`-th group of 32 bits of `uuid`, least significant first.
pub open spec fn uuid_chunk(uuid: u128, r: int) -> u32 {
    ((uuid >> ((32 * r) as u128)) & 0xffff_ffffu128) as u32
}

/// The slug that is chosen within project `project_id`, whose testbeds are
/// among `rows`, for `candidate`: the candidate when it is free; else the
/// same choice for the candidate followed by a dash and eight hexadecimal
/// digits of `uuid`, taking its 32-bit groups in turn from group `r`.
pub open spec fn spec_free_slug(rows: Seq<QueryTestbed>, project_id: ProjectId, candidate: Seq<char>, uuid: u128, r: int) -> Seq<char>
    decreases max_slug_len(rows) + 10 - candidate.len(),
{
    if spec_slug_taken(rows, project_id, candidate) {
        proof {
            lemma_taken_len(rows, project_id, candidate);
        }
        spec_free_slug(
            rows,
            project_id,
            candidate + seq!['-'] + hex8(uuid_chunk(uuid, r)),
            uuid,
            (r + 1) % 4,
        )
    } else {
        candidate
    }
}

/// The chosen slug is free in the project, keeps a free candidate as it is,
/// and always starts with the candidate.
pub proof fn lemma_free_slug(rows: Seq<QueryTestbed>, project_id: ProjectId, candidate: Seq<char>, uuid: u128, r: int)
    ensures
        !spec_slug_taken(rows, project_id, spec_free_slug(rows, project_id, candidate, uuid, r)),
        !spec_slug_taken(rows, project_id, candidate)
            ==> spec_free_slug(rows, project_id, candidate, uuid, r) == candidate,
        candidate.is_prefix_of(spec_free_slug(rows, project_id, candidate, uuid, r)),
    decreases max_slug_len(rows) + 10 - candidate.len(),
{
    if spec_slug_taken(rows, project_id, candidate) {
        lemma_taken_len(rows, project_id, candidate);
        let next = candidate + seq!['-'] + hex8(uuid_chunk(uuid, r));
        lemma_free_slug(rows, project_id, next, uuid, (r + 1) % 4);
        let chosen = spec_free_slug(rows, project_id, next, uuid, (r + 1) % 4);
        assert(next.is_prefix_of(chosen));
        assert forall|i: int| 0 <= i < candidate.len() implies candidate[i] == chosen[i] by {
            assert(next[i] == candidate[i]);
        }
    }
}

/// The slug that a request for a new testbed asks for: the requested slug,
/// or, without one, the slug derived from the name.
pub open spec fn spec_requested_slug(testbed: JsonNewTestbed) -> Seq<char> {
    match testbed.slug {
        Some(slug) => slug@,
        None => slugify_text(testbed.name@),
    }
}

/// Whether a testbed of project `project_id` among `rows` has slug `slug`.
pub fn slug_taken(rows: &Vec<QueryTestbed>, project_id: ProjectId, slug: &Slug) -> (taken: bool)
    ensures
        taken == spec_slug_taken(rows@, project_id, slug@),
{
    let mut i: usize = 0;
    while i < rows.len()
        invariant
            i <= rows.len(),
            forall|j: int| 0 <= j < i ==> !(#[trigger] rows@[j].project_id == project_id && rows@[j].slug@ == slug@),
        decreases rows.len() - i,
    {
        if rows[i].project_id == project_id && rows[i].slug.eq_str(slug.as_str()) {
            assert(rows@[i as int].project_id == project_id && rows@[i as int].slug@ == slug@);
            return true;
        }
        i = i + 1;
    }
    false
}

/// The slug chosen for `candidate` within project `project_id`, whose
/// testbeds are among `rows`: the candidate when no testbed of the project
/// has it, else the candidate with dash-and-hexadecimal suffixes taken from
/// `uuid` until no testbed of the project has it.
pub fn free_slug(rows: &Vec<QueryTestbed>, project_id: ProjectId, candidate: Slug, uuid: TestbedUuid) -> (slug: Slug)
    ensures
        slug@ == spec_free_slug(rows@, project_id, candidate@, uuid.0, 0),
{
    let ghost first = candidate@;
    let mut slug = candidate;
    let mut r: u32 = 0;
    while slug_taken(rows, project_id, &slug)
        invariant
            r < 4,
            spec_free_slug(rows@, project_id, first, uuid.0, 0) == spec_free_slug(rows@, project_id, slug@, uuid.0, r as int),
        decreases max_slug_len(rows@) + 10 - slug@.len(),
    {
        proof {
            lemma_taken_len(rows@, project_id, slug@);
        }
        let chunk: u32 = ((uuid.0 >> (32 * r) as u128) & 0xffff_ffffu128) as u32;
        assert(chunk == uuid_chunk(uuid.0, r as int));
        slug = slug.with_suffix(chunk);
        r = (r + 1) % 4;
    }
    slug
}

/// A testbed row to be inserted.
#[derive(Debug)]
pub struct InsertTestbed {
    pub uuid: TestbedUuid,
    pub project_id: ProjectId,
    pub name: NonEmpty,
    pub slug: Slug,
    pub created: DateTime,
    pub modified: DateTime,
}

impl InsertTestbed {
    /// The row for a new testbed of project `project_id`, whose testbeds are
    /// among `rows`, from request `testbed`, with UUID `uuid`, created and
    /// last modified at `timestamp`. Its slug is the requested one, or the
    /// one derived from the name, when no testbed of the project has it;
    /// else that slug with suffixes taken from `uuid` until it is free.
    pub fn from_json_at(
        project_id: ProjectId,
        testbed: JsonNewTestbed,
        rows: &Vec<QueryTestbed>,
        uuid: TestbedUuid,
        timestamp: DateTime,
    ) -> (insert: InsertTestbed)
        ensures
            insert.uuid == uuid,
            insert.project_id == project_id,
            insert.name == testbed.name,
            insert.slug@ == spec_free_slug(rows@, project_id, spec_requested_slug(testbed), uuid.0, 0),
            insert.created == timestamp,
            insert.modified == timestamp,
            !spec_slug_taken(rows@, project_id, spec_requested_slug(testbed))
                ==> insert.slug@ == spec_requested_slug(testbed),
            !spec_slug_taken(rows@, project_id, insert.slug@),
    {
        let JsonNewTestbed { name, slug } = testbed;
        let candidate = match slug {
            Some(slug) => slug,
            None => Slug::from_name(&name),
        };
        let slug = free_slug(rows, project_id, candidate, uuid);
        proof {
            lemma_free_slug(rows@, project_id, spec_requested_slug(testbed), uuid.0, 0);
        }
        InsertTestbed { uuid, project_id, name, slug, created: timestamp, modified: timestamp }
    }

    /// The row for a new testbed of project `project_id`, whose testbeds are
    /// among `rows`, from request `testbed`, with a fresh random UUID and the
    /// current time; its slug is chosen as `from_json_at` chooses it. `None`
    /// when the system clock cannot be read as a time after the epoch.
    pub fn from_json(project_id: ProjectId, testbed: JsonNewTestbed, rows: &Vec<QueryTestbed>) -> (res: Option<InsertTestbed>)
        ensures
            res matches Some(insert) ==> {
                &&& insert.project_id == project_id
                &&& insert.name == testbed.name
                &&& insert.slug@ == spec_free_slug(rows@, project_id, spec_requested_slug(testbed), insert.uuid.0, 0)
                &&& insert.created == insert.modified
                &&& !spec_slug_taken(rows@, project_id, spec_requested_slug(testbed))
                    ==> insert.slug@ == spec_requested_slug(testbed)
                &&& !spec_slug_taken(rows@, project_id, insert.slug@)
                &&& is_v4_uuid(insert.uuid.0)
                &&& insert.created.0 >= 0
            },
    {
        match DateTime::now() {
            Some(timestamp) => {
                let uuid = TestbedUuid::new();
                Some(Self::from_json_at(project_id, testbed, rows, uuid, timestamp))
            },
            None => None,
        }
    }

    /// The row for the testbed of the local machine in project `project_id`,
    /// whose testbeds are among `rows`: `from_json` of the `localhost` request.
    pub fn localhost(project_id: ProjectId, rows: &Vec<QueryTestbed>) -> (res: Option<InsertTestbed>)
        ensures
            res matches Some(insert) ==> {
                &&& insert.project_id == project_id
                &&& insert.name@ == TESTBED_LOCALHOST_STR@
                &&& insert.slug@ == spec_free_slug(rows@, project_id, TESTBED_LOCALHOST_STR@, insert.uuid.0, 0)
                &&& !spec_slug_taken(rows@, project_id, TESTBED_LOCALHOST_STR@)
                    ==> insert.slug@ == TESTBED_LOCALHOST_STR@
                &&& !spec_slug_taken(rows@, project_id, insert.slug@)
                &&& TESTBED_LOCALHOST_STR@.is_prefix_of(insert.slug@)
                &&& insert.created == insert.modified
                &&& is_v4_uuid(insert.uuid.0)
                &&& insert.created.0 >= 0
            },
    {
        let testbed = JsonNewTestbed::localhost();
        let ghost requested = spec_requested_slug(testbed);
        let res = Self::from_json(project_id, testbed, rows);
        proof {
            if res is Some {
                lemma_free_slug(rows@, project_id, requested, res->0.uuid.0, 0);
            }
        }
        res
    }
}

/// The changes to apply to a testbed row.
#[derive(Debug)]
pub struct UpdateTestbed {
    pub name: Option<NonEmpty>,
    pub slug: Option<Slug>,
    pub modified: DateTime,
}

impl Clone for UpdateTestbed {
    fn clone(&self) -> (res: Self)
        ensures
            res == *self,
    {
        UpdateTestbed {
            name: match &self.name {
                Some(name) => Some(name.clone()),
                None => None,
            },
            slug: match &self.slug {
                Some(slug) => Some(slug.clone()),
                None => None,
            },
            modified: self.modified,
        }
    }
}

impl UpdateTestbed {
    /// The changes of request `update`, stamped as modified at `modified`.
    pub fn from_update_at(update: JsonUpdateTestbed, modified: DateTime) -> (changes: UpdateTestbed)
        ensures
            changes.name == update.name,
            changes.slug == update.slug,
            changes.modified == modified,
    {
        let JsonUpdateTestbed { name, slug } = update;
        UpdateTestbed { name, slug, modified }
    }

    /// The changes of request `update`, stamped as modified now; `None`
    /// when the system clock cannot be read as a time after the epoch.
    pub fn from_update(update: JsonUpdateTestbed) -> (res: Option<UpdateTestbed>)
        ensures
            res matches Some(changes) ==> {
                &&& changes.name == update.name
                &&& changes.slug == update.slug
                &&& changes.modified.0 >= 0
            },
    {
        match DateTime::now() {
            Some(modified) => Some(Self::from_update_at(update, modified)),
            None => None,
        }
    }
}

/// The testbed of the local machine is a system testbed once stored,
/// whatever slug it was given.
pub proof fn lemma_localhost_is_system(id: TestbedId, insert: InsertTestbed)
    requires
        insert.name@ == TESTBED_LOCALHOST_STR@,
    ensures
        QueryTestbed::stored(id, insert).spec_is_system(),
{
}

/// A stored testbed is found again by its UUID when no other row of its
/// project carries that UUID, and its JSON form gives back what was inserted.
pub proof fn lemma_inserted_testbed_found(
    rows: Seq<QueryTestbed>,
    k: int,
    id: TestbedId,
    insert: InsertTestbed,
    project: ProjectUuid,
    res: Result<QueryTestbed, QueryError>,
)
    requires
        0 <= k < rows.len(),
        rows[k] == QueryTestbed::stored(id, insert),
        forall|j: int| 0 <= j < rows.len() && j != k
            ==> !testbed_has_uuid(#[trigger] rows[j], insert.project_id, insert.uuid),
        testbed_lookup(
            rows,
            |row: QueryTestbed| testbed_has_uuid(row, insert.project_id, insert.uuid),
            LookupKey::TestbedUuid(insert.project_id, insert.uuid),
            res,
        ),
    ensures
        res == Ok::<QueryTestbed, QueryError>(QueryTestbed::stored(id, insert)),
        spec_testbed_json(QueryTestbed::stored(id, insert), project) == (JsonTestbed {
            uuid: insert.uuid,
            project,
            name: insert.name,
            slug: insert.slug,
            created: insert.created,
            modified: insert.modified,
        }),
{
    let wanted = |row: QueryTestbed| testbed_has_uuid(row, insert.project_id, insert.uuid);
    assert(wanted(rows[k]));
    match res {
        Ok(row) => {
            let i = choose|i: int|
                0 <= i < rows.len() && #[trigger] rows[i] == row && wanted(row)
                    && forall|j: int| 0 <= j < i ==> !wanted(#[trigger] rows[j]);
            assert(i == k);
        },
        Err(_) => {},
    }
}

/// Naming a testbed by its UUID as a resource id finds the same row as
/// looking it up by that UUID, and fails exactly where that lookup fails.
pub proof fn lemma_resource_uuid_is_uuid_lookup(
    rows: Seq<QueryTestbed>,
    project_id: ProjectId,
    bits: u128,
    res: Result<QueryTestbed, QueryError>,
)
    requires
        testbed_lookup(
            rows,
            |row: QueryTestbed| testbed_has_resource_id(row, project_id, ResourceIdKind::Uuid(bits)),
            LookupKey::TestbedResourceKind(project_id, ResourceIdKind::Uuid(bits)),
            res,
        ),
    ensures
        testbed_lookup(
            rows,
            |row: QueryTestbed| testbed_has_uuid(row, project_id, TestbedUuid(bits)),
            LookupKey::TestbedUuid(project_id, TestbedUuid(bits)),
            match res {
                Ok(row) => Ok::<QueryTestbed, QueryError>(row),
                Err(_) => Err::<QueryTestbed, QueryError>(QueryError::NotFound(LookupKey::TestbedUuid(project_id, TestbedUuid(bits)))),
            },
        ),
{
    let by_kind = |row: QueryTestbed| testbed_has_resource_id(row, project_id, ResourceIdKind::Uuid(bits));
    let by_uuid = |row: QueryTestbed| testbed_has_uuid(row, project_id, TestbedUuid(bits));
    assert(by_kind =~= by_uuid);
}

/// A new testbed's slug is free in its project, and a free requested slug
/// (or, without one, a free slug derived from the name) is kept as it is.
pub proof fn lemma_new_testbed_slug(
    rows: Seq<QueryTestbed>,
    project_id: ProjectId,
    testbed: JsonNewTestbed,
    uuid: u128,
)
    ensures
        !spec_slug_taken(rows, project_id, spec_free_slug(rows, project_id, spec_requested_slug(testbed), uuid, 0)),
        testbed.slug matches Some(s) ==> (!spec_slug_taken(rows, project_id, s@)
            ==> spec_free_slug(rows, project_id, spec_requested_slug(testbed), uuid, 0) == s@),
{
    lemma_free_slug(rows, project_id, spec_requested_slug(testbed), uuid, 0);
}


/// Whether row `i` of `rows` is the first row of project `project_id` with
/// stored slug `slug`.
pub open spec fn first_row_with_slug(rows: Seq<QueryTestbed>, project_id: ProjectId, slug: Seq<char>, i: int) -> bool {
    &&& 0 <= i < rows.len()
    &&& rows[i].project_id == project_id
    &&& rows[i].slug@ == slug
    &&& forall|j: int| 0 <= j < i ==> !(#[trigger] rows[j].project_id == project_id && rows[j].slug@ == slug)
}

/// Whether row `i` of `rows` is the first row of project `project_id` with
/// UUID `uuid`.
pub open spec fn first_row_with_uuid(rows: Seq<QueryTestbed>, project_id: ProjectId, uuid: u128, i: int) -> bool {
    &&& 0 <= i < rows.len()
    &&& rows[i].project_id == project_id
    &&& rows[i].uuid.0 == uuid
    &&& forall|j: int| 0 <= j < i ==> !(#[trigger] rows[j].project_id == project_id && rows[j].uuid.0 == uuid)
}

/// A lookup gives the first row that satisfies what it looks for.
pub proof fn lemma_lookup_gives_first(
    rows: Seq<QueryTestbed>,
    wanted: spec_fn(QueryTestbed) -> bool,
    key: LookupKey,
    res: Result<QueryTestbed, QueryError>,
    i: int,
)
    requires
        testbed_lookup(rows, wanted, key, res),
        0 <= i < rows.len(),
        wanted(rows[i]),
        forall|j: int| 0 <= j < i ==> !wanted(#[trigger] rows[j]),
    ensures
        res == Ok::<QueryTestbed, QueryError>(rows[i]),
{
    match res {
        Ok(row) => {
            let k = choose|k: int|
                0 <= k < rows.len() && #[trigger] rows[k] == row && wanted(row)
                    && forall|j: int| 0 <= j < k ==> !wanted(#[trigger] rows[j]);
            if k < i {
                assert(!wanted(rows[k]));
            } else if k > i {
                assert(!wanted(rows[i]));
            }
        },
        Err(_) => {
            assert(!wanted(rows[i]));
        },
    }
}

/// Looking a testbed up by slug gives the first row of the project whose
/// stored slug is that slug; it fails exactly when no row of the project
/// has that slug, and whatever it gives has that slug and project.
pub proof fn lemma_lookup_by_slug(
    rows: Seq<QueryTestbed>,
    project_id: ProjectId,
    slug: String,
    key: LookupKey,
    res: Result<QueryTestbed, QueryError>,
)
    requires
        testbed_lookup(
            rows,
            |row: QueryTestbed| testbed_has_resource_id(row, project_id, ResourceIdKind::Slug(slug)),
            key,
            res,
        ),
    ensures
        forall|i: int| first_row_with_slug(rows, project_id, slug@, i) ==> res == Ok::<QueryTestbed, QueryError>(rows[i]),
        res matches Ok(row) ==> row.project_id == project_id && row.slug@ == slug@,
        res is Err <==> forall|i: int|
            0 <= i < rows.len() ==> !(#[trigger] rows[i].project_id == project_id && rows[i].slug@ == slug@),
{
    let wanted = |row: QueryTestbed| testbed_has_resource_id(row, project_id, ResourceIdKind::Slug(slug));
    assert forall|i: int| first_row_with_slug(rows, project_id, slug@, i) implies res == Ok::<QueryTestbed, QueryError>(rows[i]) by {
        assert forall|j: int| 0 <= j < i implies !wanted(#[trigger] rows[j]) by {
            assert(!(rows[j].project_id == project_id && rows[j].slug@ == slug@));
        }
        lemma_lookup_gives_first(rows, wanted, key, res, i);
    }
    if res is Err {
        assert forall|i: int| 0 <= i < rows.len() implies !(#[trigger] rows[i].project_id == project_id && rows[i].slug@ == slug@) by {
            assert(!wanted(rows[i]));
        }
    } else {
        let row = res->Ok_0;
        let k = choose|k: int|
            0 <= k < rows.len() && #[trigger] rows[k] == row && wanted(row)
                && forall|j: int| 0 <= j < k ==> !wanted(#[trigger] rows[j]);
        assert(wanted(rows[k]));
    }
}

/// Looking a testbed up by UUID gives the first row of the project with that
/// UUID; it fails exactly when no row of the project has it, and whatever it
/// gives has that UUID and project.
pub proof fn lemma_lookup_by_uuid(
    rows: Seq<QueryTestbed>,
    project_id: ProjectId,
    uuid: u128,
    res: Result<QueryTestbed, QueryError>,
)
    requires
        testbed_lookup(
            rows,
            |row: QueryTestbed| testbed_has_uuid(row, project_id, TestbedUuid(uuid)),
            LookupKey::TestbedUuid(project_id, TestbedUuid(uuid)),
            res,
        ),
    ensures
        forall|i: int| first_row_with_uuid(rows, project_id, uuid, i) ==> res == Ok::<QueryTestbed, QueryError>(rows[i]),
        res matches Ok(row) ==> row.project_id == project_id && row.uuid.0 == uuid,
        res is Err <==> forall|i: int|
            0 <= i < rows.len() ==> !(#[trigger] rows[i].project_id == project_id && rows[i].uuid.0 == uuid),
{
    let wanted = |row: QueryTestbed| testbed_has_uuid(row, project_id, TestbedUuid(uuid));
    assert forall|i: int| first_row_with_uuid(rows, project_id, uuid, i) implies res == Ok::<QueryTestbed, QueryError>(rows[i]) by {
        assert forall|j: int| 0 <= j < i implies !wanted(#[trigger] rows[j]) by {
            assert(!(rows[j].project_id == project_id && rows[j].uuid.0 == uuid));
        }
        lemma_lookup_gives_first(rows, wanted, LookupKey::TestbedUuid(project_id, TestbedUuid(uuid)), res, i);
    }
    if res is Err {
        assert forall|i: int| 0 <= i < rows.len() implies !(#[trigger] rows[i].project_id == project_id && rows[i].uuid.0 == uuid) by {
            assert(!wanted(rows[i]));
        }
    } else {
        let row = res->Ok_0;
        let k = choose|k: int|
            0 <= k < rows.len() && #[trigger] rows[k] == row && wanted(row)
                && forall|j: int| 0 <= j < k ==> !wanted(#[trigger] rows[j]);
        assert(wanted(rows[k]));
    }
}

/// A resource id that is not a UUID but a valid slug names the testbed by
/// its stored slug: the lookup gives the first row of the project whose slug
/// is the id's text, and fails exactly when no row of the project has it.
pub proof fn lemma_resource_id_slug_lookup(
    rows: Seq<QueryTestbed>,
    project_id: ProjectId,
    testbed: ResourceId,
    res: Result<QueryTestbed, QueryError>,
)
    requires
        exists|kind: Result<ResourceIdKind, ValidError>|
            resource_id_outcome(testbed@, uuid_parse(testbed@), spec_is_valid_slug(testbed@), kind)
            && match kind {
                Ok(kind) => testbed_lookup(
                    rows,
                    |row: QueryTestbed| testbed_has_resource_id(row, project_id, kind),
                    LookupKey::TestbedResourceId(project_id, testbed),
                    res,
                ),
                Err(e) => res == Err::<QueryTestbed, QueryError>(QueryError::InvalidResourceId(e)),
            },
        uuid_parse(testbed@) is None,
        spec_is_valid_slug(testbed@),
    ensures
        forall|i: int| first_row_with_slug(rows, project_id, testbed@, i) ==> res == Ok::<QueryTestbed, QueryError>(rows[i]),
        res matches Ok(row) ==> row.project_id == project_id && row.slug@ == testbed@,
        res is Err <==> forall|i: int|
            0 <= i < rows.len() ==> !(#[trigger] rows[i].project_id == project_id && rows[i].slug@ == testbed@),
{
    let kind = choose|kind: Result<ResourceIdKind, ValidError>|
        resource_id_outcome(testbed@, uuid_parse(testbed@), spec_is_valid_slug(testbed@), kind)
        && match kind {
            Ok(kind) => testbed_lookup(
                rows,
                |row: QueryTestbed| testbed_has_resource_id(row, project_id, kind),
                LookupKey::TestbedResourceId(project_id, testbed),
                res,
            ),
            Err(e) => res == Err::<QueryTestbed, QueryError>(QueryError::InvalidResourceId(e)),
        };
    match kind {
        Ok(ResourceIdKind::Slug(slug)) => {
            lemma_lookup_by_slug(rows, project_id, slug, LookupKey::TestbedResourceId(project_id, testbed), res);
        },
        _ => {},
    }
}

/// A resource id that parses as a UUID names the testbed by that UUID.
pub proof fn lemma_resource_id_uuid_lookup(
    rows: Seq<QueryTestbed>,
    project_id: ProjectId,
    testbed: ResourceId,
    res: Result<QueryTestbed, QueryError>,
)
    requires
        exists|kind: Result<ResourceIdKind, ValidError>|
            resource_id_outcome(testbed@, uuid_parse(testbed@), spec_is_valid_slug(testbed@), kind)
            && match kind {
                Ok(kind) => testbed_lookup(
                    rows,
                    |row: QueryTestbed| testbed_has_resource_id(row, project_id, kind),
                    LookupKey::TestbedResourceId(project_id, testbed),
                    res,
                ),
                Err(e) => res == Err::<QueryTestbed, QueryError>(QueryError::InvalidResourceId(e)),
            },
        uuid_parse(testbed@) is Some,
    ensures
        forall|i: int| first_row_with_uuid(rows, project_id, uuid_parse(testbed@)->0, i)
            ==> res == Ok::<QueryTestbed, QueryError>(rows[i]),
        res matches Ok(row) ==> row.project_id == project_id && row.uuid.0 == uuid_parse(testbed@)->0,
        res is Err <==> forall|i: int|
            0 <= i < rows.len() ==> !(#[trigger] rows[i].project_id == project_id
                && rows[i].uuid.0 == uuid_parse(testbed@)->0),
{
    let bits = uuid_parse(testbed@)->0;
    let kind = choose|kind: Result<ResourceIdKind, ValidError>|
        resource_id_outcome(testbed@, uuid_parse(testbed@), spec_is_valid_slug(testbed@), kind)
        && match kind {
            Ok(kind) => testbed_lookup(
                rows,
                |row: QueryTestbed| testbed_has_resource_id(row, project_id, kind),
                LookupKey::TestbedResourceId(project_id, testbed),
                res,
            ),
            Err(e) => res == Err::<QueryTestbed, QueryError>(QueryError::InvalidResourceId(e)),
        };
    assert(kind == Ok::<ResourceIdKind, ValidError>(ResourceIdKind::Uuid(bits)));
    let by_kind = |row: QueryTestbed| testbed_has_resource_id(row, project_id, ResourceIdKind::Uuid(bits));
    assert forall|i: int| first_row_with_uuid(rows, project_id, bits, i) implies res == Ok::<QueryTestbed, QueryError>(rows[i]) by {
        assert forall|j: int| 0 <= j < i implies !by_kind(#[trigger] rows[j]) by {
            assert(!(rows[j].project_id == project_id && rows[j].uuid.0 == bits));
        }
        lemma_lookup_gives_first(rows, by_kind, LookupKey::TestbedResourceId(project_id, testbed), res, i);
    }
    if res is Err {
        assert forall|i: int| 0 <= i < rows.len() implies !(#[trigger] rows[i].project_id == project_id && rows[i].uuid.0 == bits) by {
            assert(!by_kind(rows[i]));
        }
    } else {
        let row = res->Ok_0;
        let k = choose|k: int|
            0 <= k < rows.len() && #[trigger] rows[k] == row && by_kind(row)
                && forall|j: int| 0 <= j < k ==> !by_kind(#[trigger] rows[j]);
        assert(by_kind(rows[k]));
    }
}

/// A new testbed's slug differs from the slug of every testbed of its
/// project, and a requested slug that no testbed of the project has is
/// kept as it is.
pub proof fn lemma_new_slug_unique_in_project(
    rows: Seq<QueryTestbed>,
    project_id: ProjectId,
    testbed: JsonNewTestbed,
    insert: InsertTestbed,
)
    requires
        insert.slug@ == spec_free_slug(rows, project_id, spec_requested_slug(testbed), insert.uuid.0, 0),
    ensures
        forall|i: int| 0 <= i < rows.len() && #[trigger] rows[i].project_id == project_id
            ==> rows[i].slug@ != insert.slug@,
        testbed.slug matches Some(s) ==> (
            (forall|i: int| 0 <= i < rows.len() && #[trigger] rows[i].project_id == project_id
                ==> rows[i].slug@ != s@) ==> insert.slug@ == s@),
{
    lemma_free_slug(rows, project_id, spec_requested_slug(testbed), insert.uuid.0, 0);
    assert forall|i: int| 0 <= i < rows.len() && #[trigger] rows[i].project_id == project_id
        implies rows[i].slug@ != insert.slug@ by {
        if rows[i].slug@ == insert.slug@ {
            assert(spec_slug_taken(rows, project_id, insert.slug@));
        }
    }
    if testbed.slug is Some {
        let s = testbed.slug->0;
        if forall|i: int| 0 <= i < rows.len() && #[trigger] rows[i].project_id == project_id ==> rows[i].slug@ != s@ {
            assert(!spec_slug_taken(rows, project_id, s@));
        }
    }
}


/// The JSON form of a testbed carries the row's UUID, name, slug and times,
/// and the UUID of the first project with the row's project id; it fails,
/// naming that id, exactly when no project has it.
pub proof fn lemma_json_follows_row(
    row: QueryTestbed,
    projects: Seq<QueryProject>,
    res: Result<JsonTestbed, QueryError>,
)
    requires
        exists|project: Result<ProjectUuid, QueryError>|
            project_lookup(projects, row.project_id, project) && match project {
                Ok(uuid) => res == Ok::<JsonTestbed, QueryError>(spec_testbed_json(row, uuid)),
                Err(e) => res == Err::<JsonTestbed, QueryError>(e),
            },
    ensures
        res matches Ok(json) ==> {
            &&& json.uuid == row.uuid
            &&& json.name == row.name
            &&& json.slug == row.slug
            &&& json.created == row.created
            &&& json.modified == row.modified
            &&& exists|i: int| 0 <= i < projects.len() && #[trigger] projects[i].id == row.project_id
                && projects[i].uuid == json.project
                && forall|j: int| 0 <= j < i ==> projects[j].id != row.project_id
        },
        res is Err <==> forall|i: int| 0 <= i < projects.len() ==> #[trigger] projects[i].id != row.project_id,
        res matches Err(e) ==> e == QueryError::NotFound(LookupKey::Project(row.project_id)),
{
    let project = choose|project: Result<ProjectUuid, QueryError>|
        project_lookup(projects, row.project_id, project) && match project {
            Ok(uuid) => res == Ok::<JsonTestbed, QueryError>(spec_testbed_json(row, uuid)),
            Err(e) => res == Err::<JsonTestbed, QueryError>(e),
        };
    match project {
        Ok(uuid) => {
            let i = choose|i: int|
                0 <= i < projects.len() && #[trigger] projects[i].id == row.project_id && projects[i].uuid == uuid
                    && forall|j: int| 0 <= j < i ==> projects[j].id != row.project_id;
            assert(projects[i].id == row.project_id);
        },
        Err(_) => {},
    }
}

/// A testbed is a system testbed exactly when its name or its slug is
/// `localhost`.
pub proof fn lemma_system_by_name_or_slug(row: QueryTestbed)
    ensures
        row.spec_is_system() <==> (row.name@ == "localhost"@ || row.slug@ == "localhost"@),
{
}

} // verus!
