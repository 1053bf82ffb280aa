use bencher::ids::{DateTime, ProjectId, ProjectUuid, ResourceId, ResourceIdKind, TestbedId, TestbedUuid};
use bencher::json::{JsonNewTestbed, JsonUpdateTestbed, TESTBED_LOCALHOST_STR};
use bencher::testbed::{
    free_slug, slug_taken, InsertTestbed, LookupKey, QueryError, QueryProject, QueryTestbed,
    UpdateTestbed,
};
use bencher::valid::{NonEmpty, Slug, ValidError};

fn row(id: i32, uuid: u128, project: i32, name: &str, slug: &str) -> QueryTestbed {
    QueryTestbed {
        id: TestbedId(id),
        uuid: TestbedUuid(uuid),
        project_id: ProjectId(project),
        name: NonEmpty::parse(name).unwrap(),
        slug: Slug::new(slug),
        created: DateTime(100),
        modified: DateTime(200),
    }
}

fn rows() -> Vec<QueryTestbed> {
    vec![
        row(1, 10, 1, "localhost", "localhost"),
        row(2, 20, 1, "ci runner", "ci-runner"),
        row(3, 20, 2, "other project", "ci-runner"),
        row(4, 40, 2, "localhost", "localhost"),
    ]
}

#[test]
fn from_uuid_finds_row_of_project() {
    let rows = rows();
    let found = QueryTestbed::from_uuid(&rows, ProjectId(2), TestbedUuid(20)).unwrap();
    assert_eq!(found.id, TestbedId(3));
    let found = QueryTestbed::from_uuid(&rows, ProjectId(1), TestbedUuid(20)).unwrap();
    assert_eq!(found.id, TestbedId(2));
}

#[test]
fn from_uuid_not_found() {
    let rows = rows();
    let missing = QueryTestbed::from_uuid(&rows, ProjectId(1), TestbedUuid(40));
    assert_eq!(
        missing.err(),
        Some(QueryError::NotFound(LookupKey::TestbedUuid(ProjectId(1), TestbedUuid(40))))
    );
    let empty: Vec<QueryTestbed> = Vec::new();
    assert!(QueryTestbed::from_uuid(&empty, ProjectId(1), TestbedUuid(10)).is_err());
}

#[test]
fn from_uuid_takes_first_match() {
    let mut rows = rows();
    rows.push(row(5, 20, 2, "duplicate", "dup"));
    let found = QueryTestbed::from_uuid(&rows, ProjectId(2), TestbedUuid(20)).unwrap();
    assert_eq!(found.id, TestbedId(3));
}

#[test]
fn from_resource_id_by_slug() {
    let rows = rows();
    let found =
        QueryTestbed::from_resource_id(&rows, ProjectId(2), &ResourceId::new("localhost")).unwrap();
    assert_eq!(found.id, TestbedId(4));
    let missing = QueryTestbed::from_resource_id(&rows, ProjectId(2), &ResourceId::new("nope"));
    assert_eq!(
        missing.err(),
        Some(QueryError::NotFound(LookupKey::TestbedResourceId(
            ProjectId(2),
            ResourceId::new("nope")
        )))
    );
    let missing = QueryTestbed::from_resource_kind(&rows, ProjectId(2), &ResourceIdKind::Slug("nope".to_owned()));
    assert_eq!(
        missing.err(),
        Some(QueryError::NotFound(LookupKey::TestbedResourceKind(
            ProjectId(2),
            ResourceIdKind::Slug("nope".to_owned())
        )))
    );
}

#[test]
fn from_resource_id_refuses_invalid_id() {
    let rows = rows();
    let res = QueryTestbed::from_resource_id(&rows, ProjectId(1), &ResourceId::new("CI Runner"));
    assert_eq!(
        res.err(),
        Some(QueryError::InvalidResourceId(ValidError::ResourceId("CI Runner".to_owned())))
    );
}

#[test]
fn from_resource_id_by_uuid() {
    let uuid: u128 = 0x67e5504410b1426f9247bb680e5fe0c8;
    let mut rows = rows();
    rows.push(row(6, uuid, 1, "by uuid", "by-uuid"));
    let found = QueryTestbed::from_resource_id(
        &rows,
        ProjectId(1),
        &ResourceId::new("67e55044-10b1-426f-9247-bb680e5fe0c8"),
    )
    .unwrap();
    assert_eq!(found.id, TestbedId(6));
    // a UUID text never matches a slug
    rows.push(row(7, 1, 1, "slug like uuid", "67e55044-10b1-426f-9247-bb680e5fe0c9"));
    let missing = QueryTestbed::from_resource_id(
        &rows,
        ProjectId(1),
        &ResourceId::new("67e55044-10b1-426f-9247-bb680e5fe0c9"),
    );
    assert_eq!(
        missing.err(),
        Some(QueryError::NotFound(LookupKey::TestbedResourceId(
            ProjectId(1),
            ResourceId::new("67e55044-10b1-426f-9247-bb680e5fe0c9")
        )))
    );
}

#[test]
fn from_resource_kind_matches_from_uuid() {
    let rows = rows();
    let by_kind =
        QueryTestbed::from_resource_kind(&rows, ProjectId(1), &ResourceIdKind::Uuid(20)).unwrap();
    let by_uuid = QueryTestbed::from_uuid(&rows, ProjectId(1), TestbedUuid(20)).unwrap();
    assert_eq!(by_kind.id, by_uuid.id);
    let by_slug = QueryTestbed::from_resource_kind(
        &rows,
        ProjectId(1),
        &ResourceIdKind::Slug("ci-runner".to_owned()),
    )
    .unwrap();
    assert_eq!(by_slug.id, TestbedId(2));
}

#[test]
fn into_json_carries_fields_and_project_uuid() {
    let projects = vec![
        QueryProject { id: ProjectId(1), uuid: ProjectUuid(111) },
        QueryProject { id: ProjectId(2), uuid: ProjectUuid(222) },
    ];
    let json = row(3, 20, 2, "other project", "ci-runner").into_json(&projects).unwrap();
    assert_eq!(json.uuid, TestbedUuid(20));
    assert_eq!(json.project, ProjectUuid(222));
    assert_eq!(json.name.as_str(), "other project");
    assert_eq!(json.slug.as_str(), "ci-runner");
    assert_eq!(json.created, DateTime(100));
    assert_eq!(json.modified, DateTime(200));
}

#[test]
fn into_json_without_project() {
    let projects = vec![QueryProject { id: ProjectId(1), uuid: ProjectUuid(111) }];
    let res = row(3, 20, 2, "other project", "ci-runner").into_json(&projects);
    assert_eq!(res.err(), Some(QueryError::NotFound(LookupKey::Project(ProjectId(2)))));
}

#[test]
fn get_uuid_lookup() {
    let projects = vec![
        QueryProject { id: ProjectId(1), uuid: ProjectUuid(111) },
        QueryProject { id: ProjectId(1), uuid: ProjectUuid(112) },
    ];
    assert_eq!(QueryProject::get_uuid(&projects, ProjectId(1)), Ok(ProjectUuid(111)));
    assert_eq!(
        QueryProject::get_uuid(&projects, ProjectId(9)),
        Err(QueryError::NotFound(LookupKey::Project(ProjectId(9))))
    );
}

#[test]
fn is_system_by_name_or_slug() {
    assert!(row(1, 1, 1, "localhost", "localhost").is_system());
    assert!(row(1, 1, 1, "localhost", "renamed").is_system());
    assert!(row(1, 1, 1, "renamed", "localhost").is_system());
    assert!(!row(1, 1, 1, "Localhost", "local-host").is_system());
    assert!(!row(1, 1, 1, "localhost2", "localhost-2").is_system());
}

#[test]
fn localhost_request() {
    let testbed = JsonNewTestbed::localhost();
    assert_eq!(testbed.name.as_str(), TESTBED_LOCALHOST_STR);
    assert_eq!(testbed.slug.unwrap().as_str(), "localhost");
}

#[test]
fn from_json_at_sets_fields() {
    let testbed = JsonNewTestbed {
        name: NonEmpty::parse("ci runner").unwrap(),
        slug: None,
    };
    let rows = rows();
    let insert = InsertTestbed::from_json_at(ProjectId(7), testbed, &rows, TestbedUuid(99), DateTime(1234));
    assert_eq!(insert.uuid, TestbedUuid(99));
    assert_eq!(insert.project_id, ProjectId(7));
    assert_eq!(insert.name.as_str(), "ci runner");
    assert_eq!(insert.slug.as_str(), "ci-runner");
    assert_eq!(insert.created, DateTime(1234));
    assert_eq!(insert.modified, DateTime(1234));
}

#[test]
fn free_requested_slug_is_kept() {
    let rows = rows();
    let testbed = JsonNewTestbed {
        name: NonEmpty::parse("anything").unwrap(),
        slug: Some(Slug::new("req")),
    };
    let insert = InsertTestbed::from_json_at(ProjectId(1), testbed, &rows, TestbedUuid(1), DateTime(0));
    assert_eq!(insert.slug.as_str(), "req");
    // a slug taken only in another project is free here
    let testbed = JsonNewTestbed {
        name: NonEmpty::parse("x").unwrap(),
        slug: Some(Slug::new("ci-runner")),
    };
    let insert = InsertTestbed::from_json_at(ProjectId(3), testbed, &rows, TestbedUuid(1), DateTime(0));
    assert_eq!(insert.slug.as_str(), "ci-runner");
}

#[test]
fn taken_slug_gets_suffix_from_uuid() {
    let rows = rows();
    let uuid: u128 = 0x11111111_22222222_33333333_0123abcd;
    let testbed = JsonNewTestbed {
        name: NonEmpty::parse("CI Runner").unwrap(),
        slug: None,
    };
    let insert = InsertTestbed::from_json_at(ProjectId(1), testbed, &rows, TestbedUuid(uuid), DateTime(0));
    assert_eq!(insert.slug.as_str(), "ci-runner-0123abcd");
    assert!(!slug_taken(&rows, ProjectId(1), &insert.slug));
}

#[test]
fn suffixes_repeat_until_free() {
    let mut rows = rows();
    rows.push(row(8, 80, 1, "b", "localhost-0123abcd"));
    let uuid: u128 = 0x11111111_22222222_33333333_0123abcd;
    let slug = free_slug(&rows, ProjectId(1), Slug::new("localhost"), TestbedUuid(uuid));
    assert_eq!(slug.as_str(), "localhost-0123abcd-33333333");
    let slug = free_slug(&rows, ProjectId(2), Slug::new("localhost"), TestbedUuid(uuid));
    assert_eq!(slug.as_str(), "localhost-0123abcd");
    let slug = free_slug(&rows, ProjectId(3), Slug::new("localhost"), TestbedUuid(uuid));
    assert_eq!(slug.as_str(), "localhost");
}

#[test]
fn slug_taken_within_project_only() {
    let rows = rows();
    assert!(slug_taken(&rows, ProjectId(1), &Slug::new("ci-runner")));
    assert!(slug_taken(&rows, ProjectId(2), &Slug::new("ci-runner")));
    assert!(!slug_taken(&rows, ProjectId(3), &Slug::new("ci-runner")));
    assert!(!slug_taken(&rows, ProjectId(1), &Slug::new("ci")));
}

#[test]
fn from_json_stamps_now_and_random_uuid() {
    let rows = rows();
    let testbed = JsonNewTestbed {
        name: NonEmpty::parse("ci runner").unwrap(),
        slug: Some(Slug::new("requested")),
    };
    let insert = InsertTestbed::from_json(ProjectId(7), testbed, &rows).unwrap();
    assert_eq!(insert.created, insert.modified);
    assert!(insert.created.0 > 1_577_836_800);
    assert_eq!((insert.uuid.0 >> 76) & 0xf, 4);
    assert_eq!(insert.slug.as_str(), "requested");
}

#[test]
fn localhost_insert_is_system_once_stored() {
    let rows = rows();
    let insert = InsertTestbed::localhost(ProjectId(3), &rows).unwrap();
    assert_eq!(insert.name.as_str(), "localhost");
    assert_eq!(insert.slug.as_str(), "localhost");
    assert_eq!(insert.project_id, ProjectId(3));
    let taken = InsertTestbed::localhost(ProjectId(1), &rows).unwrap();
    assert!(taken.slug.as_str().starts_with("localhost-"));
    assert_eq!(taken.slug.as_str().len(), "localhost-".len() + 8);
    assert_eq!(
        taken.slug.as_str(),
        format!("localhost-{:08x}", (taken.uuid.0 & 0xffff_ffff) as u32)
    );
    let stored = QueryTestbed {
        id: TestbedId(1),
        uuid: taken.uuid,
        project_id: taken.project_id,
        name: taken.name,
        slug: taken.slug,
        created: taken.created,
        modified: taken.modified,
    };
    assert!(stored.is_system());
}

#[test]
fn inserted_testbed_found_by_uuid() {
    let mut rows = rows();
    let insert = InsertTestbed::from_json_at(
        ProjectId(1),
        JsonNewTestbed { name: NonEmpty::parse("new").unwrap(), slug: None },
        &rows,
        TestbedUuid(77),
        DateTime(5),
    );
    rows.push(QueryTestbed {
        id: TestbedId(9),
        uuid: insert.uuid,
        project_id: insert.project_id,
        name: insert.name.clone(),
        slug: insert.slug.clone(),
        created: insert.created,
        modified: insert.modified,
    });
    let found = QueryTestbed::from_uuid(&rows, ProjectId(1), TestbedUuid(77)).unwrap();
    assert_eq!(found.id, TestbedId(9));
    let projects = vec![QueryProject { id: ProjectId(1), uuid: ProjectUuid(5) }];
    let json = found.into_json(&projects).unwrap();
    assert_eq!(json.uuid, insert.uuid);
    assert_eq!(json.name, insert.name);
    assert_eq!(json.slug, insert.slug);
    assert_eq!(json.created, insert.created);
}

#[test]
fn update_from_request() {
    let update = JsonUpdateTestbed {
        name: Some(NonEmpty::parse("renamed").unwrap()),
        slug: None,
    };
    let changes = UpdateTestbed::from_update_at(update, DateTime(42));
    assert_eq!(changes.name.as_ref().unwrap().as_str(), "renamed");
    assert!(changes.slug.is_none());
    assert_eq!(changes.modified, DateTime(42));
    let copy = changes.clone();
    assert_eq!(copy.modified, DateTime(42));

    let update = JsonUpdateTestbed { name: None, slug: Some(Slug::new("s")) };
    let changes = UpdateTestbed::from_update(update).unwrap();
    assert!(changes.name.is_none());
    assert_eq!(changes.slug.unwrap().as_str(), "s");
    assert!(changes.modified.0 > 1_577_836_800);
}
