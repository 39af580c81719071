use jira_cli::db::{DbError, JiraDatabase, MemoryStore, Store};
use jira_cli::models::{DbState, Epic, Status, Story};

fn epic(name: &str) -> Epic {
    Epic::new(name.to_owned(), format!("{} description", name))
}

fn story(name: &str) -> Story {
    Story::new(name.to_owned(), format!("{} description", name))
}

fn service() -> JiraDatabase<MemoryStore> {
    JiraDatabase::new(MemoryStore::new())
}

fn assert_consistent(state: &DbState) {
    for (epic_id, e) in state.epics.iter() {
        assert!(*epic_id <= state.last_item_id);
        for sid in e.stories.iter() {
            assert!(state.stories.contains_key(sid));
        }
    }
    for sid in state.stories.keys() {
        assert!(*sid <= state.last_item_id);
        let owners = state
            .epics
            .values()
            .filter(|e| e.stories.contains(sid))
            .count();
        assert_eq!(owners, 1);
    }
}

#[test]
fn create_update_delete_scenario() {
    let mut db = service();
    assert_eq!(db.create_epic(epic("E1")).unwrap(), 1);
    assert_eq!(db.create_story(story("S1"), 1).unwrap(), 2);
    let state = db.read_db().unwrap();
    assert_eq!(state.epics[&1].stories, vec![2]);
    db.update_story_status(2, Status::Resolved).unwrap();
    assert_eq!(db.read_db().unwrap().stories[&2].status, Status::Resolved);
    db.delete_epic(1).unwrap();
    let state = db.read_db().unwrap();
    assert!(state.epics.is_empty());
    assert!(state.stories.is_empty());
    assert_eq!(state.last_item_id, 2);
}

#[test]
fn ids_are_not_reused_after_delete() {
    let mut db = service();
    let first = db.create_epic(epic("E1")).unwrap();
    db.delete_epic(first).unwrap();
    let second = db.create_epic(epic("E2")).unwrap();
    assert!(second > first);
    let s = db.create_story(story("S"), second).unwrap();
    assert!(s > second);
    assert_eq!(db.read_db().unwrap().last_item_id, s);
}

#[test]
fn delete_epic_removes_its_stories_only() {
    let mut db = service();
    let e1 = db.create_epic(epic("E1")).unwrap();
    let e2 = db.create_epic(epic("E2")).unwrap();
    let s1 = db.create_story(story("S1"), e1).unwrap();
    let s2 = db.create_story(story("S2"), e1).unwrap();
    let s3 = db.create_story(story("S3"), e2).unwrap();
    db.delete_epic(e1).unwrap();
    let state = db.read_db().unwrap();
    assert!(!state.stories.contains_key(&s1));
    assert!(!state.stories.contains_key(&s2));
    assert!(state.stories.contains_key(&s3));
    assert_eq!(state.epics[&e2].stories, vec![s3]);
    assert!(!state.epics.contains_key(&e1));
    assert_consistent(&state);
}

#[test]
fn delete_story_leaves_siblings() {
    let mut db = service();
    let e1 = db.create_epic(epic("E1")).unwrap();
    let e2 = db.create_epic(epic("E2")).unwrap();
    let s1 = db.create_story(story("S1"), e1).unwrap();
    let s2 = db.create_story(story("S2"), e1).unwrap();
    let s3 = db.create_story(story("S3"), e1).unwrap();
    let s4 = db.create_story(story("S4"), e2).unwrap();
    db.delete_story(e1, s2).unwrap();
    let state = db.read_db().unwrap();
    assert_eq!(state.epics[&e1].stories, vec![s1, s3]);
    assert_eq!(state.epics[&e2].stories, vec![s4]);
    assert!(!state.stories.contains_key(&s2));
    assert!(state.stories.contains_key(&s1));
    assert!(state.stories.contains_key(&s3));
    assert!(state.stories.contains_key(&s4));
    assert_consistent(&state);
}

#[test]
fn delete_story_through_other_epic_is_not_found() {
    let mut db = service();
    let e1 = db.create_epic(epic("E1")).unwrap();
    let e2 = db.create_epic(epic("E2")).unwrap();
    let s1 = db.create_story(story("S1"), e1).unwrap();
    let r = db.delete_story(e2, s1);
    assert!(matches!(
        r,
        Err(DbError::StoryNotInEpic { epic_id, story_id }) if epic_id == e2 && story_id == s1
    ));
    let state = db.read_db().unwrap();
    assert!(state.stories.contains_key(&s1));
    assert_eq!(state.epics[&e1].stories, vec![s1]);
}

#[test]
fn consistency_holds_after_each_operation() {
    let mut db = service();
    let e1 = db.create_epic(epic("E1")).unwrap();
    assert_consistent(&db.read_db().unwrap());
    let e2 = db.create_epic(epic("E2")).unwrap();
    assert_consistent(&db.read_db().unwrap());
    let s1 = db.create_story(story("S1"), e1).unwrap();
    assert_consistent(&db.read_db().unwrap());
    db.create_story(story("S2"), e2).unwrap();
    assert_consistent(&db.read_db().unwrap());
    db.create_story(story("S3"), e2).unwrap();
    assert_consistent(&db.read_db().unwrap());
    db.delete_story(e1, s1).unwrap();
    assert_consistent(&db.read_db().unwrap());
    db.delete_epic(e2).unwrap();
    assert_consistent(&db.read_db().unwrap());
    let state = db.read_db().unwrap();
    assert_eq!(state.epics.len(), 1);
    assert!(state.stories.is_empty());
}

#[test]
fn memory_store_round_trip() {
    let mut state = DbState::new();
    let e = state.create_epic(epic("E1")).unwrap();
    let s = state.create_story(story("S1"), e).unwrap();
    state.update_epic_status(e, Status::InProgress).unwrap();
    let mut store = MemoryStore::new();
    store.write_db(&state).unwrap();
    let back = store.read_db().unwrap();
    assert_eq!(back.last_item_id, state.last_item_id);
    assert_eq!(back.epics.len(), 1);
    assert_eq!(back.epics[&e].name, "E1");
    assert_eq!(back.epics[&e].description, "E1 description");
    assert_eq!(back.epics[&e].status, Status::InProgress);
    assert_eq!(back.epics[&e].stories, vec![s]);
    assert_eq!(back.stories.len(), 1);
    assert_eq!(back.stories[&s].name, "S1");
    assert_eq!(back.stories[&s].status, Status::Open);
}

#[test]
fn create_story_in_missing_epic_fails() {
    let mut db = service();
    assert!(matches!(db.create_story(story("S"), 7), Err(DbError::EpicNotFound(7))));
    assert_eq!(db.read_db().unwrap().last_item_id, 0);
}

#[test]
fn missing_ids_are_not_found() {
    let mut db = service();
    let e = db.create_epic(epic("E1")).unwrap();
    assert!(matches!(db.delete_epic(9), Err(DbError::EpicNotFound(9))));
    assert!(matches!(db.delete_story(9, 1), Err(DbError::EpicNotFound(9))));
    assert!(matches!(
        db.update_epic_status(9, Status::Closed),
        Err(DbError::EpicNotFound(9))
    ));
    assert!(matches!(
        db.update_story_status(e, Status::Closed),
        Err(DbError::StoryNotFound(id)) if id == e
    ));
    db.update_epic_status(e, Status::Closed).unwrap();
    assert_eq!(db.read_db().unwrap().epics[&e].status, Status::Closed);
}

#[test]
fn exhausted_ids_fail_without_change() {
    let mut state = DbState::new();
    state.last_item_id = u32::MAX;
    assert!(matches!(state.create_epic(epic("E")), Err(DbError::IdsExhausted)));
    assert!(matches!(state.create_story(story("S"), 1), Err(DbError::IdsExhausted)));
    assert!(state.epics.is_empty());
    assert_eq!(state.last_item_id, u32::MAX);
}
