use jira_cli::db::JiraDatabase;
use jira_cli::db::MemoryStore;
use jira_cli::models::{DbState, Epic, Story};
use jira_cli::navigator::{Action, Page};
use jira_cli::pages::{handle_input, parse_id};

fn sample() -> DbState {
    let mut state = DbState::new();
    state.create_epic(Epic::new("E".to_owned(), "d".to_owned())).unwrap();
    state.create_story(Story::new("S".to_owned(), "d".to_owned()), 1).unwrap();
    state.create_epic(Epic::new("F".to_owned(), "d".to_owned())).unwrap();
    state
}

#[test]
fn ids_are_parsed() {
    assert_eq!(parse_id("0"), Some(0));
    assert_eq!(parse_id("42"), Some(42));
    assert_eq!(parse_id("4294967295"), Some(u32::MAX));
    assert_eq!(parse_id("4294967296"), None);
    assert_eq!(parse_id(""), None);
    assert_eq!(parse_id("4x"), None);
    assert_eq!(parse_id("-1"), None);
}

#[test]
fn home_page_input() {
    let state = sample();
    assert_eq!(handle_input(Page::Home, "q", &state), Some(Action::Exit));
    assert_eq!(handle_input(Page::Home, "c", &state), Some(Action::CreateEpic));
    assert_eq!(
        handle_input(Page::Home, "3", &state),
        Some(Action::NavigateToEpicDetail { epic_id: 3 })
    );
    assert_eq!(handle_input(Page::Home, "2", &state), None);
    assert_eq!(handle_input(Page::Home, "x", &state), None);
}

#[test]
fn epic_page_input() {
    let state = sample();
    let page = Page::EpicDetail { epic_id: 1 };
    assert_eq!(handle_input(page, "p", &state), Some(Action::NavigateToPreviousPage));
    assert_eq!(handle_input(page, "u", &state), Some(Action::UpdateEpicStatus { epic_id: 1 }));
    assert_eq!(handle_input(page, "d", &state), Some(Action::DeleteEpic { epic_id: 1 }));
    assert_eq!(handle_input(page, "c", &state), Some(Action::CreateStory { epic_id: 1 }));
    assert_eq!(
        handle_input(page, "2", &state),
        Some(Action::NavigateToStoryDetail { epic_id: 1, story_id: 2 })
    );
    assert_eq!(handle_input(Page::EpicDetail { epic_id: 3 }, "2", &state), None);
}

#[test]
fn story_page_input() {
    let state = sample();
    let page = Page::StoryDetail { epic_id: 1, story_id: 2 };
    assert_eq!(handle_input(page, "p", &state), Some(Action::NavigateToPreviousPage));
    assert_eq!(handle_input(page, "u", &state), Some(Action::UpdateStoryStatus { story_id: 2 }));
    assert_eq!(
        handle_input(page, "d", &state),
        Some(Action::DeleteStory { epic_id: 1, story_id: 2 })
    );
    assert_eq!(handle_input(page, "c", &state), None);
}

#[test]
fn database_reads_back_written_state() {
    let db = JiraDatabase::new(MemoryStore::with_state(sample()));
    let state = db.read_db().unwrap();
    assert_eq!(state.last_item_id, 3);
    assert_eq!(state.epics[&1].stories, vec![2]);
}
