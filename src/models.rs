//! The tracker's data: statuses, epics, stories and the whole stored state,
//! each with a mathematical view that the contracts speak of.

use std::collections::HashMap;
use vstd::prelude::*;

verus! {

/// Lifecycle state of an epic or a story; any status may follow any other.
#[derive(PartialEq, Eq, Structural, Clone, Copy, Debug)]
pub enum Status {
    Open,
    InProgress,
    Resolved,
    Closed,
}

/// What an epic holds, as mathematical values.
pub struct EpicView {
    pub name: Seq<char>,
    pub description: Seq<char>,
    pub status: Status,
    pub stories: Seq<u32>,
}

/// What a story holds, as mathematical values.
pub struct StoryView {
    pub name: Seq<char>,
    pub description: Seq<char>,
    pub status: Status,
}

/// A top-level work item with the ids of its stories, in insertion order.
#[derive(Clone, Debug)]
pub struct Epic {
    pub name: String,
    pub description: String,
    pub status: Status,
    pub stories: Vec<u32>,
}

impl View for Epic {
    type V = EpicView;

    open spec fn view(&self) -> EpicView {
        EpicView {
            name: self.name@,
            description: self.description@,
            status: self.status,
            stories: self.stories@,
        }
    }
}

impl Epic {
    /// A new epic, open and without stories.
    pub fn new(name: String, description: String) -> (r: Epic)
        ensures
            r@ == (EpicView {
                name: name@,
                description: description@,
                status: Status::Open,
                stories: Seq::empty(),
            }),
    {
        Epic { name, description, status: Status::Open, stories: Vec::new() }
    }
}

/// A leaf work item; it belongs to the epic whose list names it.
#[derive(Clone, Debug)]
pub struct Story {
    pub name: String,
    pub description: String,
    pub status: Status,
}

impl View for Story {
    type V = StoryView;

    open spec fn view(&self) -> StoryView {
        StoryView { name: self.name@, description: self.description@, status: self.status }
    }
}

impl Story {
    /// A new story, open.
    pub fn new(name: String, description: String) -> (r: Story)
        ensures
            r@ == (StoryView { name: name@, description: description@, status: Status::Open }),
    {
        Story { name, description, status: Status::Open }
    }
}

/// The whole stored dataset, as mathematical values.
pub struct DbView {
    pub last_item_id: u32,
    pub epics: Map<u32, EpicView>,
    pub stories: Map<u32, StoryView>,
}

/// The whole stored dataset: the last id handed out, and the epics and
/// stories by id.
#[derive(Debug)]
pub struct DbState {
    pub last_item_id: u32,
    pub epics: HashMap<u32, Epic>,
    pub stories: HashMap<u32, Story>,
}

impl View for DbState {
    type V = DbView;

    open spec fn view(&self) -> DbView {
        DbView {
            last_item_id: self.last_item_id,
            epics: self.epics@.map_values(|e: Epic| e@),
            stories: self.stories@.map_values(|s: Story| s@),
        }
    }
}

impl DbState {
    /// The state of an empty store: no items, and no id handed out yet.
    pub fn new() -> (r: DbState)
        ensures
            r@ == (DbView { last_item_id: 0, epics: Map::empty(), stories: Map::empty() }),
    {
        let r = DbState { last_item_id: 0, epics: HashMap::new(), stories: HashMap::new() };
        proof {
            assert(r@.epics =~= Map::empty());
            assert(r@.stories =~= Map::empty());
        }
        r
    }

    /// A copy of the state, equal to it in every field.
    pub fn copy(&self) -> (r: DbState)
        ensures
            r@ == self@,
    {
        let r = DbState {
            last_item_id: self.last_item_id,
            epics: self.epics.clone(),
            stories: self.stories.clone(),
        };
        r
    }
}

} // verus!
