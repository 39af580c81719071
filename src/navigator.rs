//! The navigator: a stack of pages whose top is the current page, and the
//! transition function that turns a user action into page-stack changes
//! and database operations.

use crate::db::{DbError, JiraDatabase, Store};
use crate::models::{DbState, DbView, Epic, Status, Story};
use vstd::prelude::*;

verus! {

/// A screen of the navigator.
#[derive(PartialEq, Eq, Structural, Clone, Copy, Debug)]
pub enum Page {
    /// The listing of all epics; it sits at the bottom of the stack.
    Home,
    EpicDetail { epic_id: u32 },
    StoryDetail { epic_id: u32, story_id: u32 },
}

/// What the user asked for.
#[derive(PartialEq, Eq, Structural, Clone, Copy, Debug)]
pub enum Action {
    NavigateToEpicDetail { epic_id: u32 },
    NavigateToStoryDetail { epic_id: u32, story_id: u32 },
    NavigateToPreviousPage,
    CreateEpic,
    UpdateEpicStatus { epic_id: u32 },
    DeleteEpic { epic_id: u32 },
    CreateStory { epic_id: u32 },
    UpdateStoryStatus { story_id: u32 },
    DeleteStory { epic_id: u32, story_id: u32 },
    Exit,
}

/// The user-facing operation that failed.
#[derive(PartialEq, Eq, Structural, Clone, Copy, Debug)]
pub enum FailedAction {
    CreateEpic,
    UpdateEpic,
    DeleteEpic,
    CreateStory,
    UpdateStory,
    DeleteStory,
}

/// The message shown for a failed operation.
pub open spec fn failure_message(f: FailedAction) -> Seq<char> {
    match f {
        FailedAction::CreateEpic => "failed to create epic!"@,
        FailedAction::UpdateEpic => "failed to update epic!"@,
        FailedAction::DeleteEpic => "failed to delete epic!"@,
        FailedAction::CreateStory => "failed to create story!"@,
        FailedAction::UpdateStory => "failed to update story!"@,
        FailedAction::DeleteStory => "failed to delete story!"@,
    }
}

impl FailedAction {
    /// The message shown for this failed operation.
    pub fn message(&self) -> (r: String)
        ensures
            r@ == failure_message(*self),
    {
        match self {
            FailedAction::CreateEpic => "failed to create epic!".to_owned(),
            FailedAction::UpdateEpic => "failed to update epic!".to_owned(),
            FailedAction::DeleteEpic => "failed to delete epic!".to_owned(),
            FailedAction::CreateStory => "failed to create story!".to_owned(),
            FailedAction::UpdateStory => "failed to update story!".to_owned(),
            FailedAction::DeleteStory => "failed to delete story!".to_owned(),
        }
    }
}

/// A database error, with the user-facing operation that it broke.
#[derive(Clone, Debug)]
pub struct ActionError {
    pub action: FailedAction,
    pub cause: DbError,
}

/// The user's answers, asked for while an action is handled.
pub trait Prompts {
    /// The fields of a new epic.
    fn create_epic(&mut self) -> Epic;

    /// The fields of a new story.
    fn create_story(&mut self) -> Story;

    /// A new status, or none when the user gave up.
    fn update_status(&mut self) -> Option<Status>;

    /// Whether the user confirms deleting an epic.
    fn delete_epic(&mut self) -> bool;

    /// Whether the user confirms deleting a story.
    fn delete_story(&mut self) -> bool;
}

/// The answer that the prompts gave for an action.
#[derive(Clone, Debug)]
pub enum Reply {
    /// The action asks nothing.
    Nothing,
    NewEpic { epic: Epic },
    NewStory { story: Story },
    NewStatus { status: Option<Status> },
    Confirmed { yes: bool },
}

impl Reply {
    /// This reply is of the kind that `action` asks for.
    pub open spec fn answers(&self, action: Action) -> bool {
        match action {
            Action::CreateEpic => self is NewEpic,
            Action::CreateStory { .. } => self is NewStory,
            Action::UpdateEpicStatus { .. } | Action::UpdateStoryStatus { .. } => self is NewStatus,
            Action::DeleteEpic { .. } | Action::DeleteStory { .. } => self is Confirmed,
            _ => self is Nothing,
        }
    }
}

/// The stack after leaving the current page, if there is one.
pub open spec fn popped(p: Seq<Page>) -> Seq<Page> {
    if p.len() > 0 {
        p.drop_last()
    } else {
        p
    }
}

/// A database call for `failed`, which succeeds from `d` exactly when `pre`
/// holds and then gives `expected`, returned `r` and left `d_new`: on failure
/// nothing is changed, and the cause is the store's or the missing `pre`.
pub open spec fn db_outcome(
    r: Result<(), ActionError>,
    d: DbView,
    d_new: DbView,
    failed: FailedAction,
    pre: bool,
    expected: DbView,
) -> bool {
    match r {
        Ok(()) => pre && d_new == expected,
        Err(e) => {
            &&& e.action == failed
            &&& d_new == d
            &&& (e.cause is Io || e.cause is Format || !pre)
        },
    }
}

/// What handling `action` with the answer `reply` does: from pages `p`
/// and stored state `d` to pages `p_new`, stored state `d_new` and result `r`.
pub open spec fn outcome(
    action: Action,
    reply: Reply,
    p: Seq<Page>,
    d: DbView,
    p_new: Seq<Page>,
    d_new: DbView,
    r: Result<(), ActionError>,
) -> bool {
    match action {
        Action::NavigateToEpicDetail { epic_id } => {
            &&& r is Ok
            &&& p_new == p.push(Page::EpicDetail { epic_id })
            &&& d_new == d
        },
        Action::NavigateToStoryDetail { epic_id, story_id } => {
            &&& r is Ok
            &&& p_new == p.push(Page::StoryDetail { epic_id, story_id })
            &&& d_new == d
        },
        Action::NavigateToPreviousPage => r is Ok && p_new == popped(p) && d_new == d,
        Action::Exit => r is Ok && p_new == Seq::<Page>::empty() && d_new == d,
        Action::CreateEpic => {
            &&& p_new == p
            &&& db_outcome(
                r,
                d,
                d_new,
                FailedAction::CreateEpic,
                d.last_item_id < u32::MAX,
                d.with_new_epic(reply->epic@),
            )
        },
        Action::CreateStory { epic_id } => {
            &&& p_new == p
            &&& db_outcome(
                r,
                d,
                d_new,
                FailedAction::CreateStory,
                d.last_item_id < u32::MAX && d.epics.contains_key(epic_id),
                d.with_new_story(reply->story@, epic_id),
            )
        },
        Action::UpdateEpicStatus { epic_id } => {
            &&& p_new == p
            &&& match reply->status {
                None => r is Ok && d_new == d,
                Some(st) => db_outcome(
                    r,
                    d,
                    d_new,
                    FailedAction::UpdateEpic,
                    d.epics.contains_key(epic_id),
                    d.with_epic_status(epic_id, st),
                ),
            }
        },
        Action::UpdateStoryStatus { story_id } => {
            &&& p_new == p
            &&& match reply->status {
                None => r is Ok && d_new == d,
                Some(st) => db_outcome(
                    r,
                    d,
                    d_new,
                    FailedAction::UpdateStory,
                    d.stories.contains_key(story_id),
                    d.with_story_status(story_id, st),
                ),
            }
        },
        Action::DeleteEpic { epic_id } => {
            if !reply->yes {
                r is Ok && p_new == p && d_new == d
            } else {
                &&& p_new == (if r is Ok {
                    popped(p)
                } else {
                    p
                })
                &&& db_outcome(
                    r,
                    d,
                    d_new,
                    FailedAction::DeleteEpic,
                    d.epics.contains_key(epic_id),
                    d.without_epic(epic_id),
                )
            }
        },
        Action::DeleteStory { epic_id, story_id } => {
            if !reply->yes {
                r is Ok && p_new == p && d_new == d
            } else {
                &&& p_new == (if r is Ok {
                    popped(p)
                } else {
                    p
                })
                &&& db_outcome(
                    r,
                    d,
                    d_new,
                    FailedAction::DeleteStory,
                    d.epics.contains_key(epic_id) && d.epics[epic_id].stories.contains(story_id),
                    d.without_story(epic_id, story_id),
                )
            }
        },
    }
}

/// The home page stays at the bottom of a non-empty stack: whatever an
/// action does, the stack it leaves is empty or still starts with it.
pub proof fn lemma_home_stays_at_bottom(
    action: Action,
    reply: Reply,
    p: Seq<Page>,
    d: DbView,
    p_new: Seq<Page>,
    d_new: DbView,
    r: Result<(), ActionError>,
)
    requires
        p.len() > 0,
        p[0] == Page::Home,
        outcome(action, reply, p, d, p_new, d_new, r),
    ensures
        p_new.len() > 0 ==> p_new[0] == Page::Home,
{
}

/// A stack of pages over a database service; the top page is the current
/// one, and the stack starts with the home page alone.
pub struct Navigator<S: Store, P: Prompts> {
    pages: Vec<Page>,
    prompts: P,
    db: JiraDatabase<S>,
}

impl<S: Store, P: Prompts> Navigator<S, P> {
    /// The page stack, bottom first.
    pub closed spec fn pages(&self) -> Seq<Page> {
        self.pages@
    }

    /// The state that the database's store holds.
    pub closed spec fn stored(&self) -> DbView {
        self.db.stored()
    }

    /// A navigator on the home page, over `db`, asking `prompts`.
    pub fn new(db: JiraDatabase<S>, prompts: P) -> (r: Self)
        ensures
            r.pages() == seq![Page::Home],
            r.stored() == db.stored(),
    {
        let mut pages: Vec<Page> = Vec::new();
        pages.push(Page::Home);
        Navigator { pages, prompts, db }
    }

    /// The page on top of the stack, if any.
    pub fn get_current_page(&self) -> (r: Option<&Page>)
        ensures
            match r {
                Some(p) => self.pages().len() > 0 && *p == self.pages().last(),
                None => self.pages().len() == 0,
            },
    {
        let n = self.pages.len();
        if n == 0 {
            None
        } else {
            Some(&self.pages[n - 1])
        }
    }

    /// How many pages are on the stack.
    pub fn page_count(&self) -> (r: usize)
        ensures
            r == self.pages().len(),
    {
        self.pages.len()
    }

    /// The database service, for pages to read from.
    pub fn database(&self) -> (r: &JiraDatabase<S>)
        ensures
            r.stored() == self.stored(),
    {
        &self.db
    }

    /// Replaces what the database's store holds with `state`, read afresh
    /// from wherever the state is kept; the pages stay as they are.
    pub fn reload(&mut self, state: &DbState) -> (r: Result<(), DbError>)
        ensures
            final(self).pages() == old(self).pages(),
            r is Ok ==> final(self).stored() == state@,
            r matches Err(e) ==> (e is Io || e is Format) && final(self).stored() == old(
                self,
            ).stored(),
    {
        self.db.write_db(state)
    }

    fn pop_page(&mut self)
        ensures
            final(self).pages() == popped(old(self).pages()),
            final(self).stored() == old(self).stored(),
    {
        if self.pages.len() > 0 {
            self.pages.pop();
        }
    }

    /// Asks the prompts what `action` needs to know.
    fn ask(&mut self, action: Action) -> (r: Reply)
        ensures
            r.answers(action),
            final(self).pages() == old(self).pages(),
            final(self).stored() == old(self).stored(),
    {
        match action {
            Action::CreateEpic => Reply::NewEpic { epic: self.prompts.create_epic() },
            Action::CreateStory { .. } => Reply::NewStory { story: self.prompts.create_story() },
            Action::UpdateEpicStatus { .. } | Action::UpdateStoryStatus { .. } => {
                Reply::NewStatus { status: self.prompts.update_status() }
            },
            Action::DeleteEpic { .. } => Reply::Confirmed { yes: self.prompts.delete_epic() },
            Action::DeleteStory { .. } => Reply::Confirmed { yes: self.prompts.delete_story() },
            _ => Reply::Nothing,
        }
    }

    /// Handles `action` given the user's answer `reply` to its prompt.
    pub fn apply_action(&mut self, action: Action, reply: Reply) -> (r: Result<(), ActionError>)
        requires
            reply.answers(action),
        ensures
            outcome(
                action,
                reply,
                old(self).pages(),
                old(self).stored(),
                final(self).pages(),
                final(self).stored(),
                r,
            ),
    {
        match action {
            Action::NavigateToEpicDetail { epic_id } => {
                self.pages.push(Page::EpicDetail { epic_id });
                Ok(())
            },
            Action::NavigateToStoryDetail { epic_id, story_id } => {
                self.pages.push(Page::StoryDetail { epic_id, story_id });
                Ok(())
            },
            Action::NavigateToPreviousPage => {
                self.pop_page();
                Ok(())
            },
            Action::CreateEpic => {
                let epic = match reply {
                    Reply::NewEpic { epic } => epic,
                    _ => {
                        return Ok(());
                    },
                };
                match self.db.create_epic(epic) {
                    Ok(_) => Ok(()),
                    Err(e) => Err(ActionError { action: FailedAction::CreateEpic, cause: e }),
                }
            },
            Action::CreateStory { epic_id } => {
                let story = match reply {
                    Reply::NewStory { story } => story,
                    _ => {
                        return Ok(());
                    },
                };
                match self.db.create_story(story, epic_id) {
                    Ok(_) => Ok(()),
                    Err(e) => Err(ActionError { action: FailedAction::CreateStory, cause: e }),
                }
            },
            Action::UpdateEpicStatus { epic_id } => {
                if let Reply::NewStatus { status: Some(status) } = reply {
                    match self.db.update_epic_status(epic_id, status) {
                        Ok(()) => Ok(()),
                        Err(e) => Err(ActionError { action: FailedAction::UpdateEpic, cause: e }),
                    }
                } else {
                    Ok(())
                }
            },
            Action::UpdateStoryStatus { story_id } => {
                if let Reply::NewStatus { status: Some(status) } = reply {
                    match self.db.update_story_status(story_id, status) {
                        Ok(()) => Ok(()),
                        Err(e) => Err(ActionError { action: FailedAction::UpdateStory, cause: e }),
                    }
                } else {
                    Ok(())
                }
            },
            Action::DeleteEpic { epic_id } => {
                if let Reply::Confirmed { yes: true } = reply {
                    match self.db.delete_epic(epic_id) {
                        Ok(()) => {
                            self.pop_page();
                            Ok(())
                        },
                        Err(e) => Err(ActionError { action: FailedAction::DeleteEpic, cause: e }),
                    }
                } else {
                    Ok(())
                }
            },
            Action::DeleteStory { epic_id, story_id } => {
                if let Reply::Confirmed { yes: true } = reply {
                    match self.db.delete_story(epic_id, story_id) {
                        Ok(()) => {
                            self.pop_page();
                            Ok(())
                        },
                        Err(e) => Err(ActionError { action: FailedAction::DeleteStory, cause: e }),
                    }
                } else {
                    Ok(())
                }
            },
            Action::Exit => {
                self.pages = Vec::new();
                Ok(())
            },
        }
    }

    /// Handles `action`: asks the prompts what it needs, then changes the
    /// page stack and the database as `outcome` says for that answer.
    pub fn handle_action(&mut self, action: Action) -> (r: Result<(), ActionError>)
        ensures
            exists|reply: Reply|
                #[trigger] reply.answers(action) && outcome(
                    action,
                    reply,
                    old(self).pages(),
                    old(self).stored(),
                    final(self).pages(),
                    final(self).stored(),
                    r,
                ),
    {
        let reply = self.ask(action);
        let ghost answer = reply;
        let r = self.apply_action(action, reply);
        proof {
            assert(answer.answers(action));
        }
        r
    }
}

} // verus!
