//! What a key press on a page asks for: each page maps the text the user
//! typed to at most one action, checking ids against the stored state.

use crate::db::position_of;
use crate::models::{DbState, DbView};
use crate::navigator::{Action, Page};
use vstd::prelude::*;
use vstd::utf8::encode_utf8;

verus! {

/// The bytes are all ASCII digits.
pub open spec fn all_digits(b: Seq<u8>) -> bool {
    forall|i: int| 0 <= i < b.len() ==> 48 <= #[trigger] b[i] <= 57
}

/// The number that the ASCII digits `b` write in decimal.
pub open spec fn decimal_value(b: Seq<u8>) -> nat
    decreases b.len(),
{
    if b.len() == 0 {
        0
    } else {
        decimal_value(b.drop_last()) * 10 + (b.last() - 48) as nat
    }
}

/// The id that `b` writes: one or more decimal digits whose value fits in
/// a `u32`.
pub open spec fn parsed_id(b: Seq<u8>) -> Option<u32> {
    if b.len() > 0 && all_digits(b) && decimal_value(b) <= u32::MAX {
        Some(decimal_value(b) as u32)
    } else {
        None
    }
}

/// The id that `text` writes in decimal, if it writes one.
pub fn parse_id(text: &str) -> (r: Option<u32>)
    ensures
        r == parsed_id(encode_utf8(text@)),
{
    let b = text.as_bytes();
    let n = b.len();
    if n == 0 {
        return None;
    }
    let mut acc: u64 = 0;
    let mut i: usize = 0;
    while i < n
        invariant
            b@ == encode_utf8(text@),
            n == b@.len(),
            i <= n,
            all_digits(b@.subrange(0, i as int)),
            acc == if decimal_value(b@.subrange(0, i as int)) <= u32::MAX {
                decimal_value(b@.subrange(0, i as int))
            } else {
                u32::MAX as nat + 1
            },
        decreases n - i,
    {
        let d = b[i];
        if d < 48 || d > 57 {
            proof {
                assert(!all_digits(b@)) by {
                    assert(b@[i as int] == d);
                }
            }
            return None;
        }
        proof {
            let p = b@.subrange(0, i as int);
            let q = b@.subrange(0, i + 1);
            assert(q.drop_last() =~= p);
            assert(q.last() == d);
            assert(decimal_value(q) == decimal_value(p) * 10 + (d - 48) as nat);
            assert forall|j: int| 0 <= j < q.len() implies 48 <= #[trigger] q[j] <= 57 by {
                if j < i {
                    assert(q[j] == p[j]);
                }
            }
        }
        if acc <= 0xFFFF_FFFF {
            let v = acc * 10 + (d - 48) as u64;
            if v <= 0xFFFF_FFFF {
                acc = v;
            } else {
                acc = 0x1_0000_0000;
            }
        }
        i = i + 1;
    }
    proof {
        assert(b@.subrange(0, n as int) =~= b@);
    }
    if acc <= 0xFFFF_FFFF {
        Some(acc as u32)
    } else {
        None
    }
}

/// The text is the single character `c`.
pub open spec fn is_key(b: Seq<u8>, c: char) -> bool {
    b.len() == 1 && b[0] == c as u8
}

/// The action that typing `b` on `page` asks for, over stored state `d`.
pub open spec fn input_action(page: Page, b: Seq<u8>, d: DbView) -> Option<Action> {
    match page {
        Page::Home => {
            if is_key(b, 'q') {
                Some(Action::Exit)
            } else if is_key(b, 'c') {
                Some(Action::CreateEpic)
            } else {
                match parsed_id(b) {
                    Some(epic_id) => if d.epics.contains_key(epic_id) {
                        Some(Action::NavigateToEpicDetail { epic_id })
                    } else {
                        None
                    },
                    None => None,
                }
            }
        },
        Page::EpicDetail { epic_id } => {
            if is_key(b, 'p') {
                Some(Action::NavigateToPreviousPage)
            } else if is_key(b, 'u') {
                Some(Action::UpdateEpicStatus { epic_id })
            } else if is_key(b, 'd') {
                Some(Action::DeleteEpic { epic_id })
            } else if is_key(b, 'c') {
                Some(Action::CreateStory { epic_id })
            } else {
                match parsed_id(b) {
                    Some(story_id) => if d.epics.contains_key(epic_id)
                        && d.epics[epic_id].stories.contains(story_id) {
                        Some(Action::NavigateToStoryDetail { epic_id, story_id })
                    } else {
                        None
                    },
                    None => None,
                }
            }
        },
        Page::StoryDetail { epic_id, story_id } => {
            if is_key(b, 'p') {
                Some(Action::NavigateToPreviousPage)
            } else if is_key(b, 'u') {
                Some(Action::UpdateStoryStatus { story_id })
            } else if is_key(b, 'd') {
                Some(Action::DeleteStory { epic_id, story_id })
            } else {
                None
            }
        },
    }
}

fn key_of(b: &[u8]) -> (r: u8)
    ensures
        b@.len() == 1 ==> r == b@[0],
        b@.len() != 1 ==> r == 0,
{
    if b.len() == 1 {
        b[0]
    } else {
        0
    }
}

/// The action that typing `input` on `page` asks for, checking ids
/// against `state`.
pub fn handle_input(page: Page, input: &str, state: &DbState) -> (r: Option<Action>)
    ensures
        r == input_action(page, encode_utf8(input@), state@),
{
    let k = key_of(input.as_bytes());
    match page {
        Page::Home => {
            if k == 113 {
                Some(Action::Exit)
            } else if k == 99 {
                Some(Action::CreateEpic)
            } else {
                match parse_id(input) {
                    Some(epic_id) => if state.epics.contains_key(&epic_id) {
                        Some(Action::NavigateToEpicDetail { epic_id })
                    } else {
                        None
                    },
                    None => None,
                }
            }
        },
        Page::EpicDetail { epic_id } => {
            if k == 112 {
                Some(Action::NavigateToPreviousPage)
            } else if k == 117 {
                Some(Action::UpdateEpicStatus { epic_id })
            } else if k == 100 {
                Some(Action::DeleteEpic { epic_id })
            } else if k == 99 {
                Some(Action::CreateStory { epic_id })
            } else {
                match parse_id(input) {
                    Some(story_id) => match state.epics.get(&epic_id) {
                        Some(e) => if position_of(&e.stories, story_id).is_some() {
                            Some(Action::NavigateToStoryDetail { epic_id, story_id })
                        } else {
                            None
                        },
                        None => None,
                    },
                    None => None,
                }
            }
        },
        Page::StoryDetail { epic_id, story_id } => {
            if k == 112 {
                Some(Action::NavigateToPreviousPage)
            } else if k == 117 {
                Some(Action::UpdateStoryStatus { story_id })
            } else if k == 100 {
                Some(Action::DeleteStory { epic_id, story_id })
            } else {
                None
            }
        },
    }
}

} // verus!
