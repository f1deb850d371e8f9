use buildchain::{
    DurableCounter, DurableMap, Error, Project, ProjectPayload, ProjectService, SegmentAllocator,
    SegmentName, MAX_RECORD_SIZE,
};

fn payload(title: &str, description: &str, goal_amount: u64, creator: &str) -> ProjectPayload {
    ProjectPayload {
        title: title.to_string(),
        description: description.to_string(),
        goal_amount,
        creator: creator.to_string(),
    }
}

fn first_payload() -> ProjectPayload {
    payload("T", "D", 100, "alice")
}

fn service() -> ProjectService {
    ProjectService::init().unwrap()
}

/// A service whose map already holds `bytes` under `key`.
fn service_holding(key: u64, bytes: &[u8]) -> ProjectService {
    let mut segments = SegmentAllocator::init();
    let counter = DurableCounter::init(segments.take(SegmentName::Counter).unwrap()).unwrap();
    let mut records = DurableMap::init(segments.take(SegmentName::Records).unwrap());
    assert_eq!(records.insert(key, bytes), Ok(None));
    ProjectService::new(counter, records)
}

#[test]
fn a_new_store_is_empty() {
    let store = service();
    assert_eq!(store.next_id(), 0);
    assert_eq!(store.len(), 0);
    assert_eq!(store.get_project(0), Err(Error::NotFound { id: 0 }));
}

#[test]
fn the_first_project_gets_id_zero_and_the_second_id_one() {
    let mut store = service();
    let first = store.add_project(first_payload(), 1000).unwrap();
    assert_eq!(
        first,
        Project {
            id: 0,
            title: "T".to_string(),
            description: "D".to_string(),
            goal_amount: 100,
            raised_amount: 0,
            creator: "alice".to_string(),
            created_at: 1000,
            updated_at: None,
        }
    );
    let second = store.add_project(payload("U", "E", 5, "bob"), 1001).unwrap();
    assert_eq!(second.id, 1);
    assert_eq!(second.created_at, 1001);
    assert_eq!(store.next_id(), 2);
    assert_eq!(store.len(), 2);
    assert_eq!(store.get_project(0), Ok(first));
    assert_eq!(store.get_project(1), Ok(second));
}

#[test]
fn contributions_add_up_and_stamp_the_project() {
    let mut store = service();
    store.add_project(first_payload(), 1000).unwrap();
    let once = store.contribute_to_project(0, 40, 2000).unwrap();
    assert_eq!(once.raised_amount, 40);
    assert_eq!(once.updated_at, Some(2000));
    let twice = store.contribute_to_project(0, 10, 3000).unwrap();
    assert_eq!(twice.raised_amount, 50);
    assert_eq!(twice.updated_at, Some(3000));
    assert_eq!(twice.id, 0);
    assert_eq!(twice.title, "T");
    assert_eq!(twice.description, "D");
    assert_eq!(twice.goal_amount, 100);
    assert_eq!(twice.creator, "alice");
    assert_eq!(twice.created_at, 1000);
    assert_eq!(store.get_project(0), Ok(twice));
}

#[test]
fn delete_returns_the_project_as_last_stored_and_then_it_is_gone() {
    let mut store = service();
    store.add_project(first_payload(), 1000).unwrap();
    store.contribute_to_project(0, 40, 2000).unwrap();
    let last_known = store.contribute_to_project(0, 10, 3000).unwrap();
    assert_eq!(store.delete_project(0), Ok(last_known));
    assert_eq!(store.get_project(0), Err(Error::NotFound { id: 0 }));
    assert_eq!(store.len(), 0);
    assert_eq!(store.next_id(), 1);
}

#[test]
fn updating_a_missing_project_changes_nothing() {
    let mut store = service();
    let first = store.add_project(first_payload(), 1000).unwrap();
    assert_eq!(
        store.update_project(99, payload("X", "Y", 1, "mallory"), 2000),
        Err(Error::NotFound { id: 99 })
    );
    assert_eq!(store.next_id(), 1);
    assert_eq!(store.len(), 1);
    assert_eq!(store.get_project(0), Ok(first));
    assert_eq!(store.get_project(99), Err(Error::NotFound { id: 99 }));
}

#[test]
fn every_operation_on_an_unissued_id_reports_it_and_changes_nothing() {
    let mut store = service();
    let first = store.add_project(first_payload(), 1000).unwrap();
    for id in [1, 2, 99, u64::MAX] {
        assert_eq!(store.get_project(id), Err(Error::NotFound { id }));
        assert_eq!(store._get_project(&id), Ok(None));
        assert_eq!(store.update_project(id, first_payload(), 5), Err(Error::NotFound { id }));
        assert_eq!(store.contribute_to_project(id, 5, 5), Err(Error::NotFound { id }));
        assert_eq!(store.delete_project(id), Err(Error::NotFound { id }));
    }
    assert_eq!(store.next_id(), 1);
    assert_eq!(store.len(), 1);
    assert_eq!(store.get_project(0), Ok(first));
}

#[test]
fn every_operation_on_a_deleted_id_reports_it_and_changes_nothing() {
    let mut store = service();
    store.add_project(first_payload(), 1000).unwrap();
    let kept = store.add_project(payload("U", "E", 5, "bob"), 1001).unwrap();
    store.delete_project(0).unwrap();
    assert_eq!(store.get_project(0), Err(Error::NotFound { id: 0 }));
    assert_eq!(store.update_project(0, first_payload(), 5), Err(Error::NotFound { id: 0 }));
    assert_eq!(store.contribute_to_project(0, 5, 5), Err(Error::NotFound { id: 0 }));
    assert_eq!(store.delete_project(0), Err(Error::NotFound { id: 0 }));
    assert_eq!(store.next_id(), 2);
    assert_eq!(store.len(), 1);
    assert_eq!(store.get_project(1), Ok(kept));
}

#[test]
fn a_deleted_id_is_not_given_out_again() {
    let mut store = service();
    store.add_project(first_payload(), 1).unwrap();
    store.delete_project(0).unwrap();
    let next = store.add_project(first_payload(), 2).unwrap();
    assert_eq!(next.id, 1);
    assert_eq!(store.get_project(0), Err(Error::NotFound { id: 0 }));
}

#[test]
fn update_replaces_the_editable_fields_only() {
    let mut store = service();
    store.add_project(first_payload(), 1000).unwrap();
    store.contribute_to_project(0, 40, 2000).unwrap();
    let updated = store.update_project(0, payload("New", "Text", 7, "mallory"), 3000).unwrap();
    assert_eq!(
        updated,
        Project {
            id: 0,
            title: "New".to_string(),
            description: "Text".to_string(),
            goal_amount: 7,
            raised_amount: 40,
            creator: "alice".to_string(),
            created_at: 1000,
            updated_at: Some(3000),
        }
    );
    assert_eq!(store.get_project(0), Ok(updated));
    assert_eq!(store.next_id(), 1);
}

#[test]
fn update_leaves_other_projects_alone() {
    let mut store = service();
    store.add_project(first_payload(), 1000).unwrap();
    let other = store.add_project(payload("U", "E", 5, "bob"), 1001).unwrap();
    store.update_project(0, payload("New", "Text", 7, "x"), 3000).unwrap();
    store.contribute_to_project(0, 3, 3001).unwrap();
    assert_eq!(store.get_project(1), Ok(other));
}

#[test]
fn raised_amount_never_goes_down() {
    let mut store = service();
    store.add_project(first_payload(), 0).unwrap();
    let mut last = 0;
    for (step, amount) in [0u64, 5, 0, 1, 1 << 40, 0, 3].into_iter().enumerate() {
        if step % 3 == 2 {
            store.update_project(0, payload("t", "d", step as u64, "z"), step as u64).unwrap();
        }
        let project = store.contribute_to_project(0, amount, step as u64).unwrap();
        assert!(project.raised_amount >= last);
        assert_eq!(project.raised_amount, last + amount);
        last = project.raised_amount;
    }
    assert_eq!(last, 9 + (1 << 40));
}

#[test]
fn a_contribution_of_zero_is_accepted() {
    let mut store = service();
    store.add_project(first_payload(), 1000).unwrap();
    let project = store.contribute_to_project(0, 0, 2000).unwrap();
    assert_eq!(project.raised_amount, 0);
    assert_eq!(project.updated_at, Some(2000));
}

#[test]
fn the_goal_does_not_limit_contributions() {
    let mut store = service();
    store.add_project(first_payload(), 1000).unwrap();
    let project = store.contribute_to_project(0, 250, 2000).unwrap();
    assert_eq!(project.goal_amount, 100);
    assert_eq!(project.raised_amount, 250);
}

#[test]
fn a_contribution_past_the_largest_amount_is_refused_and_nothing_changes() {
    let mut store = service();
    store.add_project(first_payload(), 1000).unwrap();
    let full = store.contribute_to_project(0, u64::MAX, 2000).unwrap();
    assert_eq!(full.raised_amount, u64::MAX);
    assert_eq!(store.contribute_to_project(0, 1, 3000), Err(Error::AmountOverflow));
    assert_eq!(store.get_project(0), Ok(full.clone()));
    assert_eq!(store.contribute_to_project(0, 0, 4000).map(|p| p.raised_amount), Ok(u64::MAX));
}

#[test]
fn created_ids_are_pairwise_distinct() {
    let mut store = service();
    let mut ids = Vec::new();
    for round in 0..40u64 {
        let project = store.add_project(first_payload(), round).unwrap();
        assert!(!ids.contains(&project.id));
        ids.push(project.id);
        match round % 4 {
            0 => {
                store.delete_project(project.id).unwrap();
            }
            1 => {
                store.contribute_to_project(project.id, round, round).unwrap();
            }
            2 => {
                store.update_project(project.id, first_payload(), round).unwrap();
            }
            _ => {
                store = store.reload().unwrap();
            }
        }
    }
    assert_eq!(ids, (0..40).collect::<Vec<u64>>());
}

#[test]
fn ids_stay_distinct_across_a_restart() {
    let mut store = service();
    let a = store.add_project(first_payload(), 1).unwrap();
    let b = store.add_project(first_payload(), 2).unwrap();
    let mut store = store.reload().unwrap();
    assert_eq!(store.next_id(), 2);
    let c = store.add_project(first_payload(), 3).unwrap();
    assert_eq!((a.id, b.id, c.id), (0, 1, 2));
}

#[test]
fn what_was_stored_is_there_after_a_restart_and_what_was_removed_is_not() {
    let mut store = service();
    store.add_project(first_payload(), 1).unwrap();
    store.add_project(payload("U", "E", 5, "bob"), 2).unwrap();
    store.add_project(payload("V", "F", 6, "carol"), 3).unwrap();
    let contributed = store.contribute_to_project(0, 40, 4).unwrap();
    let updated = store.update_project(1, payload("W", "G", 8, "x"), 5).unwrap();
    store.delete_project(2).unwrap();
    let store = store.reload().unwrap();
    assert_eq!(store.get_project(0), Ok(contributed));
    assert_eq!(store.get_project(1), Ok(updated));
    assert_eq!(store.get_project(2), Err(Error::NotFound { id: 2 }));
    assert_eq!(store.len(), 2);
    assert_eq!(store.next_id(), 3);
}

#[test]
fn a_payload_too_large_to_store_is_refused_before_anything_is_written() {
    let mut store = service();
    let huge = payload(&"x".repeat(MAX_RECORD_SIZE), "D", 1, "alice");
    assert_eq!(store.add_project(huge, 1), Err(Error::OversizedRecord));
    assert_eq!(store.next_id(), 0);
    assert_eq!(store.len(), 0);
    assert_eq!(store.add_project(first_payload(), 2).map(|p| p.id), Ok(0));
}

#[test]
fn the_largest_payload_that_fits_is_stored() {
    let mut store = service();
    let payload = payload(&"x".repeat(MAX_RECORD_SIZE - 46), "", 1, "");
    let project = store.add_project(payload, 1).unwrap();
    assert_eq!(project.to_bytes().map(|bytes| bytes.len()), Ok(MAX_RECORD_SIZE));
    assert_eq!(store.get_project(0), Ok(project));
}

#[test]
fn an_update_too_large_to_store_is_refused_and_nothing_changes() {
    let mut store = service();
    let first = store.add_project(first_payload(), 1).unwrap();
    let huge = payload("T", &"y".repeat(MAX_RECORD_SIZE), 1, "alice");
    assert_eq!(store.update_project(0, huge, 2), Err(Error::OversizedRecord));
    assert_eq!(store.get_project(0), Ok(first));
}

#[test]
fn a_first_contribution_that_no_longer_fits_is_refused_and_nothing_changes() {
    let mut store = service();
    let full = payload(&"x".repeat(MAX_RECORD_SIZE - 46), "", 1, "");
    let project = store.add_project(full, 1).unwrap();
    assert_eq!(store.contribute_to_project(0, 1, 2), Err(Error::OversizedRecord));
    assert_eq!(store.get_project(0), Ok(project));
}

#[test]
fn do_insert_files_a_project_under_its_id() {
    let mut store = service();
    let project = Project {
        id: 5,
        title: "T".to_string(),
        description: "D".to_string(),
        goal_amount: 1,
        raised_amount: 2,
        creator: "c".to_string(),
        created_at: 3,
        updated_at: Some(4),
    };
    assert_eq!(store.do_insert(&project), Ok(()));
    assert_eq!(store._get_project(&5), Ok(Some(project.clone())));
    assert_eq!(store.get_project(5), Ok(project.clone()));
    assert_eq!(store.len(), 1);
    assert_eq!(store.next_id(), 0);
    let replaced = Project { raised_amount: 9, ..project };
    assert_eq!(store.do_insert(&replaced), Ok(()));
    assert_eq!(store.get_project(5), Ok(replaced));
    assert_eq!(store.len(), 1);
}

#[test]
fn do_insert_refuses_a_project_too_large_to_store() {
    let mut store = service();
    let project = Project { id: 5, title: "x".repeat(MAX_RECORD_SIZE), ..Project::default() };
    assert_eq!(store.do_insert(&project), Err(Error::OversizedRecord));
    assert_eq!(store._get_project(&5), Ok(None));
    assert_eq!(store.len(), 0);
}

#[test]
fn bytes_that_are_no_record_are_reported_as_corrupt_and_left_alone() {
    let mut store = service_holding(3, b"not a record");
    assert_eq!(store.get_project(3), Err(Error::DecodeCorruption));
    assert_eq!(store._get_project(&3), Err(Error::DecodeCorruption));
    assert_eq!(store.update_project(3, first_payload(), 1), Err(Error::DecodeCorruption));
    assert_eq!(store.contribute_to_project(3, 1, 1), Err(Error::DecodeCorruption));
    assert_eq!(store.delete_project(3), Err(Error::DecodeCorruption));
    assert_eq!(store.len(), 1);
    assert_eq!(store.get_project(4), Err(Error::NotFound { id: 4 }));
}

#[test]
fn a_record_filed_under_another_id_is_reported_as_corrupt() {
    let project = Project { id: 7, ..Project::default() };
    let mut store = service_holding(3, &project.to_bytes().unwrap());
    assert_eq!(store.get_project(3), Err(Error::DecodeCorruption));
    assert_eq!(store.delete_project(3), Err(Error::DecodeCorruption));
    assert_eq!(store.get_project(7), Err(Error::NotFound { id: 7 }));
    assert_eq!(store.len(), 1);
}

#[test]
fn a_service_over_given_structures_reads_what_they_hold() {
    let project = Project { id: 3, title: "kept".to_string(), ..Project::default() };
    let store = service_holding(3, &project.to_bytes().unwrap());
    assert_eq!(store.get_project(3), Ok(project));
    assert_eq!(store.next_id(), 0);
}
