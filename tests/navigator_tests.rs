use jira_cli::db::{DbError, JiraDatabase, MemoryStore};
use jira_cli::models::{Epic, Status, Story};
use jira_cli::navigator::{Action, FailedAction, Navigator, Page, Prompts, Reply};

#[derive(Default)]
struct Scripted {
    confirm: bool,
    status: Option<Status>,
    asked: usize,
}

impl Prompts for Scripted {
    fn create_epic(&mut self) -> Epic {
        self.asked += 1;
        Epic::new("Epic".to_owned(), "an epic".to_owned())
    }

    fn create_story(&mut self) -> Story {
        self.asked += 1;
        Story::new("Story".to_owned(), "a story".to_owned())
    }

    fn update_status(&mut self) -> Option<Status> {
        self.asked += 1;
        self.status
    }

    fn delete_epic(&mut self) -> bool {
        self.asked += 1;
        self.confirm
    }

    fn delete_story(&mut self) -> bool {
        self.asked += 1;
        self.confirm
    }
}

fn navigator(prompts: Scripted) -> Navigator<MemoryStore, Scripted> {
    Navigator::new(JiraDatabase::new(MemoryStore::new()), prompts)
}

#[test]
fn navigation_scenario() {
    let mut nav = navigator(Scripted::default());
    assert_eq!(nav.page_count(), 1);
    assert_eq!(nav.get_current_page(), Some(&Page::Home));
    nav.handle_action(Action::NavigateToEpicDetail { epic_id: 1 }).unwrap();
    assert_eq!(nav.page_count(), 2);
    assert_eq!(nav.get_current_page(), Some(&Page::EpicDetail { epic_id: 1 }));
    nav.handle_action(Action::NavigateToPreviousPage).unwrap();
    assert_eq!(nav.page_count(), 1);
    nav.handle_action(Action::NavigateToPreviousPage).unwrap();
    assert_eq!(nav.page_count(), 0);
    assert_eq!(nav.get_current_page(), None);
    nav.handle_action(Action::NavigateToPreviousPage).unwrap();
    assert_eq!(nav.page_count(), 0);
}

#[test]
fn story_detail_is_pushed() {
    let mut nav = navigator(Scripted::default());
    nav.handle_action(Action::NavigateToStoryDetail { epic_id: 1, story_id: 2 }).unwrap();
    assert_eq!(
        nav.get_current_page(),
        Some(&Page::StoryDetail { epic_id: 1, story_id: 2 })
    );
}

#[test]
fn declined_delete_changes_nothing() {
    let mut nav = navigator(Scripted::default());
    nav.handle_action(Action::CreateEpic).unwrap();
    nav.handle_action(Action::NavigateToEpicDetail { epic_id: 1 }).unwrap();
    nav.handle_action(Action::DeleteEpic { epic_id: 1 }).unwrap();
    assert_eq!(nav.page_count(), 2);
    assert!(nav.database().read_db().unwrap().epics.contains_key(&1));
    // a declined delete of a missing epic makes no database call, so no error
    nav.handle_action(Action::DeleteEpic { epic_id: 42 }).unwrap();
    assert_eq!(nav.page_count(), 2);
}

#[test]
fn confirmed_delete_pops_the_page() {
    let prompts = Scripted { confirm: true, ..Scripted::default() };
    let mut nav = navigator(prompts);
    nav.handle_action(Action::CreateEpic).unwrap();
    nav.handle_action(Action::CreateStory { epic_id: 1 }).unwrap();
    nav.handle_action(Action::NavigateToEpicDetail { epic_id: 1 }).unwrap();
    nav.handle_action(Action::NavigateToStoryDetail { epic_id: 1, story_id: 2 }).unwrap();
    nav.handle_action(Action::DeleteStory { epic_id: 1, story_id: 2 }).unwrap();
    assert_eq!(nav.get_current_page(), Some(&Page::EpicDetail { epic_id: 1 }));
    nav.handle_action(Action::DeleteEpic { epic_id: 1 }).unwrap();
    assert_eq!(nav.get_current_page(), Some(&Page::Home));
    let state = nav.database().read_db().unwrap();
    assert!(state.epics.is_empty());
    assert!(state.stories.is_empty());
}

#[test]
fn failed_delete_keeps_the_page() {
    let prompts = Scripted { confirm: true, ..Scripted::default() };
    let mut nav = navigator(prompts);
    nav.handle_action(Action::NavigateToEpicDetail { epic_id: 5 }).unwrap();
    let err = nav.handle_action(Action::DeleteEpic { epic_id: 5 }).unwrap_err();
    assert_eq!(err.action, FailedAction::DeleteEpic);
    assert!(matches!(err.cause, DbError::EpicNotFound(5)));
    assert_eq!(err.action.message(), "failed to delete epic!");
    assert_eq!(nav.page_count(), 2);
}

#[test]
fn status_updates_follow_the_prompt() {
    let mut nav = navigator(Scripted::default());
    nav.handle_action(Action::CreateEpic).unwrap();
    nav.handle_action(Action::CreateStory { epic_id: 1 }).unwrap();
    // no status chosen: nothing happens, even for a missing story
    nav.handle_action(Action::UpdateStoryStatus { story_id: 99 }).unwrap();
    let mut nav2 = navigator(Scripted { status: Some(Status::InProgress), ..Scripted::default() });
    nav2.handle_action(Action::CreateEpic).unwrap();
    nav2.handle_action(Action::CreateStory { epic_id: 1 }).unwrap();
    nav2.handle_action(Action::UpdateEpicStatus { epic_id: 1 }).unwrap();
    nav2.handle_action(Action::UpdateStoryStatus { story_id: 2 }).unwrap();
    let state = nav2.database().read_db().unwrap();
    assert_eq!(state.epics[&1].status, Status::InProgress);
    assert_eq!(state.stories[&2].status, Status::InProgress);
    let err = nav2.handle_action(Action::UpdateStoryStatus { story_id: 99 }).unwrap_err();
    assert_eq!(err.action, FailedAction::UpdateStory);
    assert_eq!(err.action.message(), "failed to update story!");
}

#[test]
fn create_story_failure_is_reported() {
    let mut nav = navigator(Scripted::default());
    let err = nav.handle_action(Action::CreateStory { epic_id: 3 }).unwrap_err();
    assert_eq!(err.action, FailedAction::CreateStory);
    assert!(matches!(err.cause, DbError::EpicNotFound(3)));
    assert_eq!(nav.page_count(), 1);
}

#[test]
fn exit_clears_the_stack() {
    let mut nav = navigator(Scripted::default());
    nav.handle_action(Action::NavigateToEpicDetail { epic_id: 1 }).unwrap();
    nav.handle_action(Action::NavigateToEpicDetail { epic_id: 2 }).unwrap();
    nav.handle_action(Action::Exit).unwrap();
    assert_eq!(nav.page_count(), 0);
    assert_eq!(nav.get_current_page(), None);
}

#[test]
fn apply_action_uses_the_given_reply() {
    let mut nav = navigator(Scripted::default());
    nav.apply_action(
        Action::CreateEpic,
        Reply::NewEpic { epic: Epic::new("Given".to_owned(), "d".to_owned()) },
    )
    .unwrap();
    assert_eq!(nav.database().read_db().unwrap().epics[&1].name, "Given");
    nav.apply_action(Action::DeleteEpic { epic_id: 1 }, Reply::Confirmed { yes: false }).unwrap();
    assert!(nav.database().read_db().unwrap().epics.contains_key(&1));
    nav.apply_action(Action::DeleteEpic { epic_id: 1 }, Reply::Confirmed { yes: true }).unwrap();
    assert!(nav.database().read_db().unwrap().epics.is_empty());
    assert_eq!(nav.page_count(), 0);
}

#[test]
fn failure_messages() {
    assert_eq!(FailedAction::CreateEpic.message(), "failed to create epic!");
    assert_eq!(FailedAction::UpdateEpic.message(), "failed to update epic!");
    assert_eq!(FailedAction::CreateStory.message(), "failed to create story!");
    assert_eq!(FailedAction::DeleteStory.message(), "failed to delete story!");
}

#[test]
fn reload_replaces_the_stored_state() {
    let mut nav = navigator(Scripted::default());
    nav.handle_action(Action::NavigateToEpicDetail { epic_id: 1 }).unwrap();
    let mut fresh = jira_cli::models::DbState::new();
    fresh.create_epic(Epic::new("Loaded".to_owned(), "d".to_owned())).unwrap();
    nav.reload(&fresh).unwrap();
    assert_eq!(nav.page_count(), 2);
    let state = nav.database().read_db().unwrap();
    assert_eq!(state.last_item_id, 1);
    assert_eq!(state.epics[&1].name, "Loaded");
}
