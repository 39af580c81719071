//! What holds of the state across operations: consistency is kept by every
//! operation, ids are fresh and never reused, and deletes reach exactly
//! what they should.

use crate::db::first_index;
use crate::models::{DbView, EpicView, Status, StoryView};
use vstd::prelude::*;

verus! {

/// Adding an epic with no stories keeps a consistent state consistent.
pub proof fn lemma_create_epic_keeps_wf(s: DbView, e: EpicView)
    requires
        s.wf(),
        s.last_item_id < u32::MAX,
        e.stories.len() == 0,
    ensures
        s.with_new_epic(e).wf(),
{
    let t = s.with_new_epic(e);
    assert forall|sid: u32| #[trigger] t.stories.contains_key(sid) implies exists|eid: u32|
        #![trigger t.epics[eid].stories.contains(sid)]
        t.epics.contains_key(eid) && t.epics[eid].stories.contains(sid) by {
        let eid = choose|eid: u32|
            #![trigger s.epics[eid].stories.contains(sid)]
            s.epics.contains_key(eid) && s.epics[eid].stories.contains(sid);
        assert(eid != s.next_id());
        assert(t.epics[eid] == s.epics[eid]);
    }
}

/// Adding a story to an existing epic keeps a consistent state consistent.
pub proof fn lemma_create_story_keeps_wf(s: DbView, st: StoryView, epic_id: u32)
    requires
        s.wf(),
        s.last_item_id < u32::MAX,
        s.epics.contains_key(epic_id),
    ensures
        s.with_new_story(st, epic_id).wf(),
{
    let t = s.with_new_story(st, epic_id);
    let id = s.next_id();
    assert(!s.stories.contains_key(id));
    assert forall|eid: u32| s.epics.contains_key(eid) implies !s.epics[eid].stories.contains(id) by {
        if s.epics[eid].stories.contains(id) {
            let i = choose|i: int| 0 <= i < s.epics[eid].stories.len() && s.epics[eid].stories[i] == id;
            assert(s.stories.contains_key(s.epics[eid].stories[i]));
        }
    }
    let old_list = s.epics[epic_id].stories;
    let new_list = t.epics[epic_id].stories;
    assert(new_list == old_list.push(id));
    assert forall|x: u32| #[trigger] new_list.contains(x) <==> old_list.contains(x) || x == id by {
        if new_list.contains(x) {
            let i = choose|i: int| 0 <= i < new_list.len() && new_list[i] == x;
            if i < old_list.len() {
                assert(old_list[i] == x);
            }
        }
        if old_list.contains(x) {
            let i = choose|i: int| 0 <= i < old_list.len() && old_list[i] == x;
            assert(new_list[i] == x);
        }
        if x == id {
            assert(new_list[old_list.len() as int] == x);
        }
    }
    assert forall|eid: u32, i: int|
        #![trigger t.epics[eid].stories[i]]
        t.epics.contains_key(eid) && 0 <= i < t.epics[eid].stories.len()
            implies t.stories.contains_key(t.epics[eid].stories[i]) by {
        if eid == epic_id && i == old_list.len() {
        } else if eid == epic_id {
            assert(t.epics[eid].stories[i] == s.epics[eid].stories[i]);
        } else {
            assert(t.epics[eid] == s.epics[eid]);
        }
    }
    assert forall|sid: u32| #[trigger] t.stories.contains_key(sid) implies exists|eid: u32|
        #![trigger t.epics[eid].stories.contains(sid)]
        t.epics.contains_key(eid) && t.epics[eid].stories.contains(sid) by {
        if sid == id {
            assert(t.epics[epic_id].stories.contains(sid));
        } else {
            let eid = choose|eid: u32|
                #![trigger s.epics[eid].stories.contains(sid)]
                s.epics.contains_key(eid) && s.epics[eid].stories.contains(sid);
            if eid == epic_id {
                assert(new_list.contains(sid));
            } else {
                assert(t.epics[eid] == s.epics[eid]);
            }
        }
    }
    assert forall|e1: u32, e2: u32, sid: u32|
        #![trigger t.epics[e1].stories.contains(sid), t.epics[e2].stories.contains(sid)]
        t.epics.contains_key(e1) && t.epics.contains_key(e2)
            && t.epics[e1].stories.contains(sid) && t.epics[e2].stories.contains(sid)
            implies e1 == e2 by {
        if e1 != epic_id {
            assert(t.epics[e1] == s.epics[e1]);
        }
        if e2 != epic_id {
            assert(t.epics[e2] == s.epics[e2]);
        }
        if sid == id {
        } else {
            if e1 == epic_id {
                assert(old_list.contains(sid));
            }
            if e2 == epic_id {
                assert(old_list.contains(sid));
            }
        }
    }
    assert forall|eid: u32| #[trigger] t.epics.contains_key(eid) implies t.epics[eid].stories.no_duplicates() by {
        if eid == epic_id {
            assert forall|i: int, j: int|
                0 <= i < new_list.len() && 0 <= j < new_list.len() && i != j implies new_list[i] != new_list[j] by {
                if i < old_list.len() && j < old_list.len() {
                    assert(s.epics[epic_id].stories.no_duplicates());
                } else if i < old_list.len() {
                    assert(old_list.contains(new_list[i]));
                } else {
                    assert(old_list.contains(new_list[j]));
                }
            }
        } else {
            assert(t.epics[eid] == s.epics[eid]);
        }
    }
}

/// Deleting an existing epic, with its stories, keeps a consistent state
/// consistent.
pub proof fn lemma_delete_epic_keeps_wf(s: DbView, epic_id: u32)
    requires
        s.wf(),
        s.epics.contains_key(epic_id),
    ensures
        s.without_epic(epic_id).wf(),
{
    let t = s.without_epic(epic_id);
    let gone = s.epics[epic_id].stories;
    assert forall|eid: u32, i: int|
        #![trigger t.epics[eid].stories[i]]
        t.epics.contains_key(eid) && 0 <= i < t.epics[eid].stories.len()
            implies t.stories.contains_key(t.epics[eid].stories[i]) by {
        let sid = s.epics[eid].stories[i];
        assert(s.stories.contains_key(s.epics[eid].stories[i]));
        assert(s.epics[eid].stories.contains(sid));
        if gone.contains(sid) {
            assert(s.epics[epic_id].stories.contains(sid));
        }
        assert(!gone.to_set().contains(sid));
    }
    assert forall|sid: u32| #[trigger] t.stories.contains_key(sid) implies exists|eid: u32|
        #![trigger t.epics[eid].stories.contains(sid)]
        t.epics.contains_key(eid) && t.epics[eid].stories.contains(sid) by {
        assert(s.stories.contains_key(sid));
        let eid = choose|eid: u32|
            #![trigger s.epics[eid].stories.contains(sid)]
            s.epics.contains_key(eid) && s.epics[eid].stories.contains(sid);
        assert(!gone.to_set().contains(sid));
        assert(eid != epic_id);
        assert(t.epics[eid] == s.epics[eid]);
    }
    assert forall|e1: u32, e2: u32, sid: u32|
        #![trigger t.epics[e1].stories.contains(sid), t.epics[e2].stories.contains(sid)]
        t.epics.contains_key(e1) && t.epics.contains_key(e2)
            && t.epics[e1].stories.contains(sid) && t.epics[e2].stories.contains(sid)
            implies e1 == e2 by {
        assert(t.epics[e1] == s.epics[e1]);
        assert(t.epics[e2] == s.epics[e2]);
    }
    assert forall|eid: u32| #[trigger] t.epics.contains_key(eid) implies t.epics[eid].stories.no_duplicates() by {
        assert(t.epics[eid] == s.epics[eid]);
    }
}

/// Deleting a story through the epic that lists it keeps a consistent
/// state consistent.
pub proof fn lemma_delete_story_keeps_wf(s: DbView, epic_id: u32, story_id: u32)
    requires
        s.wf(),
        s.epics.contains_key(epic_id),
        s.epics[epic_id].stories.contains(story_id),
    ensures
        s.without_story(epic_id, story_id).wf(),
{
    let t = s.without_story(epic_id, story_id);
    let old_list = s.epics[epic_id].stories;
    let new_list = t.epics[epic_id].stories;
    let k = lemma_first_index(old_list, story_id);
    assert(new_list == old_list.remove(k));
    assert(old_list.no_duplicates());
    assert forall|x: u32| #[trigger] new_list.contains(x) <==> old_list.contains(x) && x != story_id by {
        if new_list.contains(x) {
            let i = choose|i: int| 0 <= i < new_list.len() && new_list[i] == x;
            if i < k {
                assert(old_list[i] == x);
            } else {
                assert(old_list[i + 1] == x);
            }
        }
        if old_list.contains(x) && x != story_id {
            let i = choose|i: int| 0 <= i < old_list.len() && old_list[i] == x;
            if i < k {
                assert(new_list[i] == x);
            } else {
                assert(i != k);
                assert(new_list[i - 1] == x);
            }
        }
    }
    assert forall|eid: u32, i: int|
        #![trigger t.epics[eid].stories[i]]
        t.epics.contains_key(eid) && 0 <= i < t.epics[eid].stories.len()
            implies t.stories.contains_key(t.epics[eid].stories[i]) by {
        let x = t.epics[eid].stories[i];
        if eid == epic_id {
            assert(new_list.contains(x));
            let j = choose|j: int| 0 <= j < old_list.len() && old_list[j] == x;
            assert(s.stories.contains_key(s.epics[epic_id].stories[j]));
        } else {
            assert(t.epics[eid] == s.epics[eid]);
            assert(s.stories.contains_key(s.epics[eid].stories[i]));
            assert(s.epics[eid].stories.contains(x));
            if x == story_id {
                assert(s.epics[epic_id].stories.contains(x));
            }
        }
    }
    assert forall|sid: u32| #[trigger] t.stories.contains_key(sid) implies exists|eid: u32|
        #![trigger t.epics[eid].stories.contains(sid)]
        t.epics.contains_key(eid) && t.epics[eid].stories.contains(sid) by {
        assert(s.stories.contains_key(sid));
        let eid = choose|eid: u32|
            #![trigger s.epics[eid].stories.contains(sid)]
            s.epics.contains_key(eid) && s.epics[eid].stories.contains(sid);
        if eid == epic_id {
            assert(new_list.contains(sid));
        } else {
            assert(t.epics[eid] == s.epics[eid]);
        }
    }
    assert forall|e1: u32, e2: u32, sid: u32|
        #![trigger t.epics[e1].stories.contains(sid), t.epics[e2].stories.contains(sid)]
        t.epics.contains_key(e1) && t.epics.contains_key(e2)
            && t.epics[e1].stories.contains(sid) && t.epics[e2].stories.contains(sid)
            implies e1 == e2 by {
        if e1 != epic_id {
            assert(t.epics[e1] == s.epics[e1]);
        } else {
            assert(old_list.contains(sid));
        }
        if e2 != epic_id {
            assert(t.epics[e2] == s.epics[e2]);
        } else {
            assert(old_list.contains(sid));
        }
    }
    assert forall|eid: u32| #[trigger] t.epics.contains_key(eid) implies t.epics[eid].stories.no_duplicates() by {
        if eid == epic_id {
            assert forall|i: int, j: int|
                0 <= i < new_list.len() && 0 <= j < new_list.len() && i != j implies new_list[i] != new_list[j] by {
                let oi = if i < k { i } else { i + 1 };
                let oj = if j < k { j } else { j + 1 };
                assert(new_list[i] == old_list[oi]);
                assert(new_list[j] == old_list[oj]);
            }
        } else {
            assert(t.epics[eid] == s.epics[eid]);
        }
    }
}

/// Setting an epic's status keeps a consistent state consistent.
pub proof fn lemma_epic_status_keeps_wf(s: DbView, epic_id: u32, status: Status)
    requires
        s.wf(),
        s.epics.contains_key(epic_id),
    ensures
        s.with_epic_status(epic_id, status).wf(),
{
    let t = s.with_epic_status(epic_id, status);
    assert forall|eid: u32| t.epics.contains_key(eid) implies #[trigger] t.epics[eid].stories
        == s.epics[eid].stories by {}
    assert forall|sid: u32| #[trigger] t.stories.contains_key(sid) implies exists|eid: u32|
        #![trigger t.epics[eid].stories.contains(sid)]
        t.epics.contains_key(eid) && t.epics[eid].stories.contains(sid) by {
        let eid = choose|eid: u32|
            #![trigger s.epics[eid].stories.contains(sid)]
            s.epics.contains_key(eid) && s.epics[eid].stories.contains(sid);
        assert(t.epics[eid].stories == s.epics[eid].stories);
    }
}

/// Setting a story's status keeps a consistent state consistent.
pub proof fn lemma_story_status_keeps_wf(s: DbView, story_id: u32, status: Status)
    requires
        s.wf(),
        s.stories.contains_key(story_id),
    ensures
        s.with_story_status(story_id, status).wf(),
{
}

/// Where `s` holds `x`, `first_index` is the position of its first
/// occurrence.
pub proof fn lemma_first_index(s: Seq<u32>, x: u32) -> (k: int)
    requires
        s.contains(x),
    ensures
        k == first_index(s, x),
        crate::db::is_first_index(s, x, k),
{
    lemma_first_index_exists(s, x, s.len() as int);
    first_index(s, x)
}

proof fn lemma_first_index_exists(s: Seq<u32>, x: u32, n: int)
    requires
        0 <= n <= s.len(),
        exists|i: int| 0 <= i < n && s[i] == x,
    ensures
        exists|i: int| crate::db::is_first_index(s, x, i),
    decreases n,
{
    if s[n - 1] == x && forall|j: int| 0 <= j < n - 1 ==> s[j] != x {
        assert(crate::db::is_first_index(s, x, n - 1));
    } else if s[n - 1] == x {
        let j = choose|j: int| 0 <= j < n - 1 && s[j] == x;
        lemma_first_index_exists(s, x, n - 1);
    } else {
        let i = choose|i: int| 0 <= i < n && s[i] == x;
        assert(i < n - 1);
        lemma_first_index_exists(s, x, n - 1);
    }
}

/// In a consistent state the next id is above every id handed out and is
/// held by no epic and no story; creating makes it the new counter, while
/// deletes and status updates leave the counter as it was.
pub proof fn lemma_next_id_fresh(s: DbView, e: EpicView, st: StoryView, epic_id: u32, story_id: u32, status: Status)
    requires
        s.ids_issued(),
        s.last_item_id < u32::MAX,
    ensures
        s.next_id() > s.last_item_id,
        !s.epics.contains_key(s.next_id()),
        !s.stories.contains_key(s.next_id()),
        s.with_new_epic(e).last_item_id == s.next_id(),
        s.with_new_story(st, epic_id).last_item_id == s.next_id(),
        s.without_epic(epic_id).last_item_id == s.last_item_id,
        s.without_story(epic_id, story_id).last_item_id == s.last_item_id,
        s.with_epic_status(epic_id, status).last_item_id == s.last_item_id,
        s.with_story_status(story_id, status).last_item_id == s.last_item_id,
{
}

/// An id is not handed out again after its epic is deleted: creating an
/// epic, deleting it and creating another gives the second a greater id.
pub proof fn lemma_ids_not_reused(s: DbView, first: EpicView, second: EpicView)
    requires
        s.last_item_id < u32::MAX - 1,
    ensures
        ({
            let a = s.with_new_epic(first);
            let b = a.without_epic(s.next_id());
            &&& b.next_id() > s.next_id()
            &&& b.with_new_epic(second).last_item_id > a.last_item_id
        }),
{
}

/// Deleting an epic removes every story it lists and leaves the other
/// epics, and the stories it does not list, as they were.
pub proof fn lemma_delete_epic_cascades(s: DbView, epic_id: u32)
    requires
        s.epics.contains_key(epic_id),
    ensures
        ({
            let t = s.without_epic(epic_id);
            &&& !t.epics.contains_key(epic_id)
            &&& forall|i: int|
                0 <= i < s.epics[epic_id].stories.len()
                    ==> !t.stories.contains_key(#[trigger] s.epics[epic_id].stories[i])
            &&& forall|k: u32|
                k != epic_id ==> (#[trigger] t.epics.contains_key(k) == s.epics.contains_key(k)
                    && t.epics[k] == s.epics[k])
            &&& forall|k: u32|
                !s.epics[epic_id].stories.contains(k) ==> (#[trigger] t.stories.contains_key(k)
                    == s.stories.contains_key(k) && (s.stories.contains_key(k) ==> t.stories[k]
                    == s.stories[k]))
        }),
{
    let t = s.without_epic(epic_id);
    assert forall|i: int| 0 <= i < s.epics[epic_id].stories.len() implies !t.stories.contains_key(
        #[trigger] s.epics[epic_id].stories[i],
    ) by {
        assert(s.epics[epic_id].stories.to_set().contains(s.epics[epic_id].stories[i]));
    }
    assert forall|k: u32| !s.epics[epic_id].stories.contains(k) implies (#[trigger] t.stories.contains_key(k)
        == s.stories.contains_key(k) && (s.stories.contains_key(k) ==> t.stories[k] == s.stories[k])) by {
        assert(!s.epics[epic_id].stories.to_set().contains(k));
    }
}

/// Deleting a story through the epic that lists it, in a consistent state,
/// removes it from that epic's list and from the stories, and leaves its
/// siblings, in order, the other stories and the other epics as they were.
pub proof fn lemma_delete_story_is_local(s: DbView, epic_id: u32, story_id: u32)
    requires
        s.wf(),
        s.epics.contains_key(epic_id),
        s.epics[epic_id].stories.contains(story_id),
    ensures
        ({
            let t = s.without_story(epic_id, story_id);
            let before = s.epics[epic_id].stories;
            let after = t.epics[epic_id].stories;
            &&& !t.stories.contains_key(story_id)
            &&& !after.contains(story_id)
            &&& after == before.filter(|x: u32| x != story_id)
            &&& t.epics[epic_id].status == s.epics[epic_id].status
            &&& t.epics[epic_id].name == s.epics[epic_id].name
            &&& forall|k: u32|
                k != story_id ==> (#[trigger] t.stories.contains_key(k) == s.stories.contains_key(k)
                    && t.stories[k] == s.stories[k])
            &&& forall|k: u32|
                k != epic_id ==> (#[trigger] t.epics.contains_key(k) == s.epics.contains_key(k)
                    && t.epics[k] == s.epics[k])
        }),
{
    let t = s.without_story(epic_id, story_id);
    let before = s.epics[epic_id].stories;
    let after = t.epics[epic_id].stories;
    let k = lemma_first_index(before, story_id);
    assert(before.no_duplicates());
    assert(after == before.remove(k));
    lemma_remove_unique_is_filter(before, story_id, k);
    if after.contains(story_id) {
        let i = choose|i: int| 0 <= i < after.len() && after[i] == story_id;
        if i < k {
            assert(before[i] == story_id);
        } else {
            assert(before[i + 1] == story_id);
        }
    }
}

/// Removing the one occurrence of `x` from a list without duplicates is
/// filtering `x` out.
proof fn lemma_remove_unique_is_filter(s: Seq<u32>, x: u32, k: int)
    requires
        s.no_duplicates(),
        0 <= k < s.len(),
        s[k] == x,
    ensures
        s.remove(k) == s.filter(|y: u32| y != x),
    decreases s.len(),
{
    let f = |y: u32| y != x;
    reveal_with_fuel(Seq::filter, 1);
    if k == s.len() - 1 {
        assert(s.remove(k) =~= s.drop_last());
        assert forall|i: int| 0 <= i < s.drop_last().len() implies f(#[trigger] s.drop_last()[i]) by {
            assert(s[i] != s[k]);
        }
        lemma_filter_keeps_all(s.drop_last(), x);
    } else {
        let p = s.drop_last();
        assert(p.no_duplicates());
        lemma_remove_unique_is_filter(p, x, k);
        assert(s.last() != x);
        assert(s.remove(k) =~= p.remove(k).push(s.last()));
    }
}

/// Filtering `x` out of a list that does not hold it changes nothing.
proof fn lemma_filter_keeps_all(s: Seq<u32>, x: u32)
    requires
        forall|i: int| 0 <= i < s.len() ==> #[trigger] s[i] != x,
    ensures
        s.filter(|y: u32| y != x) == s,
    decreases s.len(),
{
    reveal_with_fuel(Seq::filter, 1);
    if s.len() > 0 {
        lemma_filter_keeps_all(s.drop_last(), x);
        assert(s.drop_last().push(s.last()) =~= s);
    } else {
        assert(s.filter(|y: u32| y != x) =~= s);
    }
}

} // verus!
