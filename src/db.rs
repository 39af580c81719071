//! The database service: entity operations on the stored state that keep
//! epics and stories consistent and hand out fresh ids, over a swappable
//! store that is read and rewritten whole by each operation.

use crate::models::{DbState, DbView, Epic, EpicView, Status, Story, StoryView};
use vstd::prelude::*;

verus! {

/// Why a database operation failed.
#[derive(Clone, Debug)]
pub enum DbError {
    /// The store could not be read or written.
    Io(String),
    /// The stored bytes do not describe a state.
    Format(String),
    /// No epic has this id.
    EpicNotFound(u32),
    /// No story has this id.
    StoryNotFound(u32),
    /// The epic exists, but its list does not name the story.
    StoryNotInEpic { epic_id: u32, story_id: u32 },
    /// Every id has been handed out.
    IdsExhausted,
}

/// `i` is the position of the first `x` in `s`.
pub open spec fn is_first_index(s: Seq<u32>, x: u32, i: int) -> bool {
    &&& 0 <= i < s.len()
    &&& s[i] == x
    &&& forall|j: int| 0 <= j < i ==> s[j] != x
}

/// The position of the first `x` in `s`, where `s` holds `x`.
pub open spec fn first_index(s: Seq<u32>, x: u32) -> int {
    choose|i: int| is_first_index(s, x, i)
}

impl DbView {
    /// The id that the next create operation hands out.
    pub open spec fn next_id(self) -> u32 {
        (self.last_item_id + 1) as u32
    }

    /// The state after adding `e` as a new epic under the next id.
    pub open spec fn with_new_epic(self, e: EpicView) -> DbView {
        DbView {
            last_item_id: self.next_id(),
            epics: self.epics.insert(self.next_id(), e),
            stories: self.stories,
        }
    }

    /// The state after adding `s` as a new story under the next id, listed
    /// last in epic `epic_id`.
    pub open spec fn with_new_story(self, s: StoryView, epic_id: u32) -> DbView {
        let e = self.epics[epic_id];
        DbView {
            last_item_id: self.next_id(),
            epics: self.epics.insert(
                epic_id,
                EpicView {
                    name: e.name,
                    description: e.description,
                    status: e.status,
                    stories: e.stories.push(self.next_id()),
                },
            ),
            stories: self.stories.insert(self.next_id(), s),
        }
    }

    /// The state after removing epic `epic_id` and every story it lists.
    pub open spec fn without_epic(self, epic_id: u32) -> DbView {
        DbView {
            last_item_id: self.last_item_id,
            epics: self.epics.remove(epic_id),
            stories: self.stories.remove_keys(self.epics[epic_id].stories.to_set()),
        }
    }

    /// The state after removing story `story_id` from the list of epic
    /// `epic_id` (its first occurrence there) and from the stories.
    pub open spec fn without_story(self, epic_id: u32, story_id: u32) -> DbView {
        let e = self.epics[epic_id];
        DbView {
            last_item_id: self.last_item_id,
            epics: self.epics.insert(
                epic_id,
                EpicView {
                    name: e.name,
                    description: e.description,
                    status: e.status,
                    stories: e.stories.remove(first_index(e.stories, story_id)),
                },
            ),
            stories: self.stories.remove(story_id),
        }
    }

    /// The state with epic `epic_id`'s status set to `status`.
    pub open spec fn with_epic_status(self, epic_id: u32, status: Status) -> DbView {
        let e = self.epics[epic_id];
        DbView {
            last_item_id: self.last_item_id,
            epics: self.epics.insert(
                epic_id,
                EpicView {
                    name: e.name,
                    description: e.description,
                    status: status,
                    stories: e.stories,
                },
            ),
            stories: self.stories,
        }
    }

    /// The state with story `story_id`'s status set to `status`.
    pub open spec fn with_story_status(self, story_id: u32, status: Status) -> DbView {
        let s = self.stories[story_id];
        DbView {
            last_item_id: self.last_item_id,
            epics: self.epics,
            stories: self.stories.insert(
                story_id,
                StoryView { name: s.name, description: s.description, status: status },
            ),
        }
    }

    /// Every story id that an epic lists is a stored story.
    pub open spec fn listed_stories_exist(self) -> bool {
        forall|eid: u32, i: int|
            #![trigger self.epics[eid].stories[i]]
            self.epics.contains_key(eid) && 0 <= i < self.epics[eid].stories.len()
                ==> self.stories.contains_key(self.epics[eid].stories[i])
    }

    /// Every stored story is listed by some epic.
    pub open spec fn stored_stories_listed(self) -> bool {
        forall|sid: u32|
            #![trigger self.stories.contains_key(sid)]
            self.stories.contains_key(sid) ==> exists|eid: u32|
                #![trigger self.epics[eid].stories.contains(sid)]
                self.epics.contains_key(eid) && self.epics[eid].stories.contains(sid)
    }

    /// No story id is listed by two epics, nor twice by one.
    pub open spec fn single_owner(self) -> bool {
        &&& forall|e1: u32, e2: u32, sid: u32|
            #![trigger self.epics[e1].stories.contains(sid), self.epics[e2].stories.contains(sid)]
            self.epics.contains_key(e1) && self.epics.contains_key(e2)
                && self.epics[e1].stories.contains(sid) && self.epics[e2].stories.contains(sid)
                ==> e1 == e2
        &&& forall|eid: u32|
            #![trigger self.epics[eid]]
            self.epics.contains_key(eid) ==> self.epics[eid].stories.no_duplicates()
    }

    /// No item holds an id that has not been handed out yet.
    pub open spec fn ids_issued(self) -> bool {
        &&& forall|k: u32| #[trigger] self.epics.contains_key(k) ==> k <= self.last_item_id
        &&& forall|k: u32| #[trigger] self.stories.contains_key(k) ==> k <= self.last_item_id
    }

    /// A consistent state: epics and stories refer to each other without
    /// orphans in either direction, each story has one epic, and ids are
    /// below the counter.
    pub open spec fn wf(self) -> bool {
        &&& self.listed_stories_exist()
        &&& self.stored_stories_listed()
        &&& self.single_owner()
        &&& self.ids_issued()
    }
}

/// The position of the first `x` in `v`, if `v` holds it.
pub(crate) fn position_of(v: &Vec<u32>, x: u32) -> (r: Option<usize>)
    ensures
        match r {
            Some(i) => is_first_index(v@, x, i as int),
            None => !v@.contains(x),
        },
{
    let mut i: usize = 0;
    while i < v.len()
        invariant
            i <= v@.len(),
            forall|j: int| 0 <= j < i ==> v@[j] != x,
        decreases v@.len() - i,
    {
        if v[i] == x {
            return Some(i);
        }
        i = i + 1;
    }
    None
}

impl DbState {
    /// Adds `epic` under a fresh id and returns that id. Fails only when
    /// every id has been handed out, and then changes nothing.
    pub fn create_epic(&mut self, epic: Epic) -> (r: Result<u32, DbError>)
        ensures
            match r {
                Ok(id) => {
                    &&& old(self)@.last_item_id < u32::MAX
                    &&& id == old(self)@.next_id()
                    &&& final(self)@ == old(self)@.with_new_epic(epic@)
                },
                Err(e) => {
                    &&& old(self)@.last_item_id == u32::MAX
                    &&& e is IdsExhausted
                    &&& final(self)@ == old(self)@
                },
            },
    {
        if self.last_item_id == u32::MAX {
            return Err(DbError::IdsExhausted);
        }
        self.last_item_id = self.last_item_id + 1;
        let id = self.last_item_id;
        let ghost e = epic@;
        self.epics.insert(id, epic);
        proof {
            assert(self@.epics =~= old(self)@.epics.insert(id, e));
        }
        Ok(id)
    }

    /// Adds `story` under a fresh id, listed last in epic `epic_id`, and
    /// returns that id. Fails when every id has been handed out, or else
    /// when there is no such epic; a failure changes nothing.
    pub fn create_story(&mut self, story: Story, epic_id: u32) -> (r: Result<u32, DbError>)
        ensures
            match r {
                Ok(id) => {
                    &&& old(self)@.last_item_id < u32::MAX
                    &&& old(self)@.epics.contains_key(epic_id)
                    &&& id == old(self)@.next_id()
                    &&& final(self)@ == old(self)@.with_new_story(story@, epic_id)
                },
                Err(e) => {
                    &&& final(self)@ == old(self)@
                    &&& if old(self)@.last_item_id == u32::MAX {
                        e is IdsExhausted
                    } else {
                        &&& !old(self)@.epics.contains_key(epic_id)
                        &&& e == DbError::EpicNotFound(epic_id)
                    }
                },
            },
    {
        if self.last_item_id == u32::MAX {
            return Err(DbError::IdsExhausted);
        }
        let mut epic = match self.epics.remove(&epic_id) {
            Some(e) => e,
            None => {
                proof {
                    assert(self.epics@ =~= old(self).epics@);
                }
                return Err(DbError::EpicNotFound(epic_id));
            },
        };
        let id = self.last_item_id + 1;
        self.last_item_id = id;
        epic.stories.push(id);
        let ghost e = epic@;
        let ghost st = story@;
        self.epics.insert(epic_id, epic);
        self.stories.insert(id, story);
        proof {
            let o = old(self)@;
            assert(self@.epics =~= o.epics.insert(
                epic_id,
                EpicView {
                    name: o.epics[epic_id].name,
                    description: o.epics[epic_id].description,
                    status: o.epics[epic_id].status,
                    stories: o.epics[epic_id].stories.push(id),
                },
            ));
            assert(self@.stories =~= o.stories.insert(id, st));
        }
        Ok(id)
    }

    /// Removes epic `epic_id` and every story it lists. Fails, changing
    /// nothing, when there is no such epic.
    pub fn delete_epic(&mut self, epic_id: u32) -> (r: Result<(), DbError>)
        ensures
            match r {
                Ok(()) => {
                    &&& old(self)@.epics.contains_key(epic_id)
                    &&& final(self)@ == old(self)@.without_epic(epic_id)
                },
                Err(e) => {
                    &&& !old(self)@.epics.contains_key(epic_id)
                    &&& e == DbError::EpicNotFound(epic_id)
                    &&& final(self)@ == old(self)@
                },
            },
    {
        let epic = match self.epics.remove(&epic_id) {
            Some(e) => e,
            None => {
                proof {
                    assert(self.epics@ =~= old(self).epics@);
                }
                return Err(DbError::EpicNotFound(epic_id));
            },
        };
        let ghost listed = epic.stories@;
        let mut i: usize = 0;
        while i < epic.stories.len()
            invariant
                i <= listed.len(),
                epic.stories@ == listed,
                self.epics@ == old(self).epics@.remove(epic_id),
                self.last_item_id == old(self).last_item_id,
                self.stories@ == old(self).stories@.remove_keys(listed.subrange(0, i as int).to_set()),
            decreases listed.len() - i,
        {
            let sid = epic.stories[i];
            self.stories.remove(&sid);
            proof {
                let prev = listed.subrange(0, i as int);
                let next = listed.subrange(0, i + 1);
                assert(next =~= prev.push(sid));
                assert(next.to_set() =~= prev.to_set().insert(sid)) by {
                    assert forall|x: u32| #[trigger] next.to_set().contains(x) == prev.to_set().insert(sid).contains(x) by {
                        if prev.contains(x) {
                            let k = choose|k: int| 0 <= k < prev.len() && #[trigger] prev[k] == x;
                            assert(next[k] == x);
                        }
                        if x == sid {
                            assert(next[i as int] == x);
                        }
                        if next.contains(x) {
                            let k = choose|k: int| 0 <= k < next.len() && #[trigger] next[k] == x;
                            if k < i {
                                assert(prev[k] == x);
                            }
                        }
                    }
                }
                assert(self.stories@ =~= old(self).stories@.remove_keys(listed.subrange(0, i + 1).to_set()));
            }
            i = i + 1;
        }
        proof {
            assert(listed.subrange(0, listed.len() as int) =~= listed);
            assert(old(self)@.epics[epic_id].stories == listed);
            assert(self@.epics =~= old(self)@.without_epic(epic_id).epics);
            assert(self@.stories =~= old(self)@.without_epic(epic_id).stories);
        }
        Ok(())
    }

    /// Removes story `story_id` from the list of epic `epic_id` and from
    /// the stories. Fails, changing nothing, when there is no such epic, or
    /// when its list does not name the story, wherever else it is stored.
    pub fn delete_story(&mut self, epic_id: u32, story_id: u32) -> (r: Result<(), DbError>)
        ensures
            match r {
                Ok(()) => {
                    &&& old(self)@.epics.contains_key(epic_id)
                    &&& old(self)@.epics[epic_id].stories.contains(story_id)
                    &&& final(self)@ == old(self)@.without_story(epic_id, story_id)
                },
                Err(e) => {
                    &&& final(self)@ == old(self)@
                    &&& if !old(self)@.epics.contains_key(epic_id) {
                        e == DbError::EpicNotFound(epic_id)
                    } else {
                        &&& !old(self)@.epics[epic_id].stories.contains(story_id)
                        &&& e == (DbError::StoryNotInEpic { epic_id, story_id })
                    }
                },
            },
    {
        let idx = match self.epics.get(&epic_id) {
            Some(e) => position_of(&e.stories, story_id),
            None => {
                proof {
                    assert(self.epics@ =~= old(self).epics@);
                }
                return Err(DbError::EpicNotFound(epic_id));
            },
        };
        let idx = match idx {
            Some(i) => i,
            None => {
                return Err(DbError::StoryNotInEpic { epic_id, story_id });
            },
        };
        let mut epic = self.epics.remove(&epic_id).unwrap();
        let ghost before = epic.stories@;
        proof {
            assert(is_first_index(before, story_id, idx as int));
            let f = first_index(before, story_id);
            assert(is_first_index(before, story_id, f));
            assert(f == idx) by {
                if f < idx {
                    assert(before[f] != story_id);
                } else if idx < f {
                    assert(before[idx as int] != story_id);
                }
            }
        }
        epic.stories.remove(idx);
        self.epics.insert(epic_id, epic);
        self.stories.remove(&story_id);
        proof {
            assert(before[idx as int] == story_id);
            assert(self@.epics =~= old(self)@.without_story(epic_id, story_id).epics);
            assert(self@.stories =~= old(self)@.without_story(epic_id, story_id).stories);
        }
        Ok(())
    }

    /// Sets the status of epic `epic_id`. Fails, changing nothing, when
    /// there is no such epic.
    pub fn update_epic_status(&mut self, epic_id: u32, status: Status) -> (r: Result<(), DbError>)
        ensures
            match r {
                Ok(()) => {
                    &&& old(self)@.epics.contains_key(epic_id)
                    &&& final(self)@ == old(self)@.with_epic_status(epic_id, status)
                },
                Err(e) => {
                    &&& !old(self)@.epics.contains_key(epic_id)
                    &&& e == DbError::EpicNotFound(epic_id)
                    &&& final(self)@ == old(self)@
                },
            },
    {
        let mut epic = match self.epics.remove(&epic_id) {
            Some(e) => e,
            None => {
                proof {
                    assert(self.epics@ =~= old(self).epics@);
                }
                return Err(DbError::EpicNotFound(epic_id));
            },
        };
        epic.status = status;
        self.epics.insert(epic_id, epic);
        proof {
            assert(self@.epics =~= old(self)@.with_epic_status(epic_id, status).epics);
        }
        Ok(())
    }

    /// Sets the status of story `story_id`. Fails, changing nothing, when
    /// there is no such story.
    pub fn update_story_status(&mut self, story_id: u32, status: Status) -> (r: Result<(), DbError>)
        ensures
            match r {
                Ok(()) => {
                    &&& old(self)@.stories.contains_key(story_id)
                    &&& final(self)@ == old(self)@.with_story_status(story_id, status)
                },
                Err(e) => {
                    &&& !old(self)@.stories.contains_key(story_id)
                    &&& e == DbError::StoryNotFound(story_id)
                    &&& final(self)@ == old(self)@
                },
            },
    {
        let mut story = match self.stories.remove(&story_id) {
            Some(s) => s,
            None => {
                proof {
                    assert(self.stories@ =~= old(self).stories@);
                }
                return Err(DbError::StoryNotFound(story_id));
            },
        };
        story.status = status;
        self.stories.insert(story_id, story);
        proof {
            assert(self@.stories =~= old(self)@.with_story_status(story_id, status).stories);
        }
        Ok(())
    }
}

/// The persistence boundary: it reads and writes the whole state as one
/// unit. A failed write leaves what the store holds as it was. Stores are
/// written in verified code, where `contents` says what each one holds.
pub trait Store {
    /// The state that the store holds.
    spec fn contents(&self) -> DbView;

    /// Reads the whole state; on success it is what the store holds. It
    /// fails only with an I/O or a format error.
    fn read_db(&self) -> (r: Result<DbState, DbError>)
        ensures
            r matches Ok(s) ==> s@ == self.contents(),
            r matches Err(e) ==> e is Io || e is Format,
    ;

    /// Replaces the whole stored state with `state`. It fails only with an
    /// I/O or a format error.
    fn write_db(&mut self, state: &DbState) -> (r: Result<(), DbError>)
        ensures
            r is Ok ==> final(self).contents() == state@,
            r matches Err(e) ==> (e is Io || e is Format) && final(self).contents() == old(
                self,
            ).contents(),
    ;
}

/// A store that keeps the state in memory; reads and writes never fail.
pub struct MemoryStore {
    state: DbState,
}

impl MemoryStore {
    /// A store that holds the empty state.
    pub fn new() -> (r: MemoryStore)
        ensures
            r.contents() == (DbView { last_item_id: 0, epics: Map::empty(), stories: Map::empty() }),
    {
        MemoryStore { state: DbState::new() }
    }

    /// A store that holds `state`.
    pub fn with_state(state: DbState) -> (r: MemoryStore)
        ensures
            r.contents() == state@,
    {
        MemoryStore { state }
    }
}

impl Store for MemoryStore {
    closed spec fn contents(&self) -> DbView {
        self.state@
    }

    fn read_db(&self) -> (r: Result<DbState, DbError>)
        ensures
            r matches Ok(s) && s@ == self.contents(),
    {
        Ok(self.state.copy())
    }

    fn write_db(&mut self, state: &DbState) -> (r: Result<(), DbError>)
        ensures
            r is Ok && final(self).contents() == state@,
    {
        self.state = state.copy();
        Ok(())
    }
}

/// The database service: each operation reads the whole state from the
/// store, checks the ids it is given, changes the state and writes it back
/// whole. Nothing is written when a check fails.
pub struct JiraDatabase<S: Store> {
    database: S,
}

impl<S: Store> JiraDatabase<S> {
    /// The state that the underlying store holds.
    pub closed spec fn stored(&self) -> DbView {
        self.database.contents()
    }

    /// A service over `database`.
    pub fn new(database: S) -> (r: Self)
        ensures
            r.stored() == database.contents(),
    {
        JiraDatabase { database }
    }

    /// Reads the whole state.
    pub fn read_db(&self) -> (r: Result<DbState, DbError>)
        ensures
            r matches Ok(s) ==> s@ == self.stored(),
            r matches Err(e) ==> e is Io || e is Format,
    {
        self.database.read_db()
    }

    /// Replaces the whole stored state with `state`, or leaves the store as
    /// it was on failure.
    pub fn write_db(&mut self, state: &DbState) -> (r: Result<(), DbError>)
        ensures
            r is Ok ==> final(self).stored() == state@,
            r matches Err(e) ==> (e is Io || e is Format) && final(self).stored() == old(
                self,
            ).stored(),
    {
        self.database.write_db(state)
    }

    /// Adds `epic` under a fresh id and returns the id.
    pub fn create_epic(&mut self, epic: Epic) -> (r: Result<u32, DbError>)
        ensures
            match r {
                Ok(id) => {
                    &&& old(self).stored().last_item_id < u32::MAX
                    &&& id == old(self).stored().next_id()
                    &&& final(self).stored() == old(self).stored().with_new_epic(epic@)
                },
                Err(e) => {
                    &&& final(self).stored() == old(self).stored()
                    &&& e is IdsExhausted ==> old(self).stored().last_item_id == u32::MAX
                    &&& !(e is EpicNotFound || e is StoryNotFound || e is StoryNotInEpic)
                },
            },
    {
        let mut state = match self.read_db() {
            Ok(s) => s,
            Err(e) => {
                return Err(e);
            },
        };
        let id = match state.create_epic(epic) {
            Ok(id) => id,
            Err(e) => {
                return Err(e);
            },
        };
        match self.write_db(&state) {
            Ok(()) => Ok(id),
            Err(e) => Err(e),
        }
    }

    /// Adds `story` under a fresh id, listed last in epic `epic_id`, and
    /// returns the id.
    pub fn create_story(&mut self, story: Story, epic_id: u32) -> (r: Result<u32, DbError>)
        ensures
            match r {
                Ok(id) => {
                    &&& old(self).stored().last_item_id < u32::MAX
                    &&& old(self).stored().epics.contains_key(epic_id)
                    &&& id == old(self).stored().next_id()
                    &&& final(self).stored() == old(self).stored().with_new_story(story@, epic_id)
                },
                Err(e) => {
                    &&& final(self).stored() == old(self).stored()
                    &&& e is IdsExhausted ==> old(self).stored().last_item_id == u32::MAX
                    &&& e is EpicNotFound ==> e == DbError::EpicNotFound(epic_id)
                        && !old(self).stored().epics.contains_key(epic_id)
                    &&& !(e is StoryNotFound || e is StoryNotInEpic)
                },
            },
    {
        let mut state = match self.read_db() {
            Ok(s) => s,
            Err(e) => {
                return Err(e);
            },
        };
        let id = match state.create_story(story, epic_id) {
            Ok(id) => id,
            Err(e) => {
                return Err(e);
            },
        };
        match self.write_db(&state) {
            Ok(()) => Ok(id),
            Err(e) => Err(e),
        }
    }

    /// Removes epic `epic_id` and every story it lists.
    pub fn delete_epic(&mut self, epic_id: u32) -> (r: Result<(), DbError>)
        ensures
            match r {
                Ok(()) => {
                    &&& old(self).stored().epics.contains_key(epic_id)
                    &&& final(self).stored() == old(self).stored().without_epic(epic_id)
                },
                Err(e) => {
                    &&& final(self).stored() == old(self).stored()
                    &&& e is EpicNotFound ==> e == DbError::EpicNotFound(epic_id)
                        && !old(self).stored().epics.contains_key(epic_id)
                    &&& !(e is IdsExhausted || e is StoryNotFound || e is StoryNotInEpic)
                },
            },
    {
        let mut state = match self.read_db() {
            Ok(s) => s,
            Err(e) => {
                return Err(e);
            },
        };
        match state.delete_epic(epic_id) {
            Ok(()) => {},
            Err(e) => {
                return Err(e);
            },
        }
        self.write_db(&state)
    }

    /// Removes story `story_id` from the list of epic `epic_id` and from the
    /// stories; the story must be listed by that epic.
    pub fn delete_story(&mut self, epic_id: u32, story_id: u32) -> (r: Result<(), DbError>)
        ensures
            match r {
                Ok(()) => {
                    &&& old(self).stored().epics.contains_key(epic_id)
                    &&& old(self).stored().epics[epic_id].stories.contains(story_id)
                    &&& final(self).stored() == old(self).stored().without_story(epic_id, story_id)
                },
                Err(e) => {
                    &&& final(self).stored() == old(self).stored()
                    &&& e is EpicNotFound ==> e == DbError::EpicNotFound(epic_id)
                        && !old(self).stored().epics.contains_key(epic_id)
                    &&& e is StoryNotInEpic ==> e == (DbError::StoryNotInEpic { epic_id, story_id })
                        && old(self).stored().epics.contains_key(epic_id)
                        && !old(self).stored().epics[epic_id].stories.contains(story_id)
                    &&& !(e is IdsExhausted || e is StoryNotFound)
                },
            },
    {
        let mut state = match self.read_db() {
            Ok(s) => s,
            Err(e) => {
                return Err(e);
            },
        };
        match state.delete_story(epic_id, story_id) {
            Ok(()) => {},
            Err(e) => {
                return Err(e);
            },
        }
        self.write_db(&state)
    }

    /// Sets the status of epic `epic_id`.
    pub fn update_epic_status(&mut self, epic_id: u32, status: Status) -> (r: Result<(), DbError>)
        ensures
            match r {
                Ok(()) => {
                    &&& old(self).stored().epics.contains_key(epic_id)
                    &&& final(self).stored() == old(self).stored().with_epic_status(epic_id, status)
                },
                Err(e) => {
                    &&& final(self).stored() == old(self).stored()
                    &&& e is EpicNotFound ==> e == DbError::EpicNotFound(epic_id)
                        && !old(self).stored().epics.contains_key(epic_id)
                    &&& !(e is IdsExhausted || e is StoryNotFound || e is StoryNotInEpic)
                },
            },
    {
        let mut state = match self.read_db() {
            Ok(s) => s,
            Err(e) => {
                return Err(e);
            },
        };
        match state.update_epic_status(epic_id, status) {
            Ok(()) => {},
            Err(e) => {
                return Err(e);
            },
        }
        self.write_db(&state)
    }

    /// Sets the status of story `story_id`.
    pub fn update_story_status(&mut self, story_id: u32, status: Status) -> (r: Result<(), DbError>)
        ensures
            match r {
                Ok(()) => {
                    &&& old(self).stored().stories.contains_key(story_id)
                    &&& final(self).stored() == old(self).stored().with_story_status(story_id, status)
                },
                Err(e) => {
                    &&& final(self).stored() == old(self).stored()
                    &&& e is StoryNotFound ==> e == DbError::StoryNotFound(story_id)
                        && !old(self).stored().stories.contains_key(story_id)
                    &&& !(e is IdsExhausted || e is EpicNotFound || e is StoryNotInEpic)
                },
            },
    {
        let mut state = match self.read_db() {
            Ok(s) => s,
            Err(e) => {
                return Err(e);
            },
        };
        match state.update_story_status(story_id, status) {
            Ok(()) => {},
            Err(e) => {
                return Err(e);
            },
        }
        self.write_db(&state)
    }
}

} // verus!
