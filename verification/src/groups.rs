//! The group endpoints: how a new group gets its id, when a group may be
//! deleted, and how each endpoint answers.
use vstd::prelude::*;

use crate::model::{Group, GroupInput};
use crate::reply::{empty_reply, storage_error, text_reply, Body, Reply, Status};

verus! {

/// The largest of the ids, or -1 where there are none.
pub open spec fn max_id(ids: Seq<i32>) -> int
    decreases ids.len(),
{
    if ids.len() == 0 {
        -1
    } else if ids.len() == 1 {
        ids[0] as int
    } else {
        let rest = max_id(ids.drop_last());
        if ids.last() as int > rest {
            ids.last() as int
        } else {
            rest
        }
    }
}

/// The id a new group gets: one more than the largest id in use, 0 for the first group.
pub open spec fn next_id(ids: Seq<i32>) -> int {
    max_id(ids) + 1
}

pub open spec fn group_ids(groups: Seq<Group>) -> Seq<i32> {
    groups.map_values(|g: Group| g.id)
}

/// Every id is at most `max_id`, and `max_id` is one of them (or -1 for none).
pub proof fn lemma_max_id(ids: Seq<i32>)
    ensures
        forall|i: int| 0 <= i < ids.len() ==> ids[i] <= max_id(ids),
        ids.len() == 0 ==> max_id(ids) == -1,
        ids.len() > 0 ==> exists|i: int| 0 <= i < ids.len() && ids[i] == max_id(ids),
    decreases ids.len(),
{
    if ids.len() > 0 {
        lemma_max_id(ids.drop_last());
        assert forall|i: int| 0 <= i < ids.len() implies ids[i] <= max_id(ids) by {
            if i < ids.len() - 1 {
                assert(ids[i] == ids.drop_last()[i]);
            }
        }
        if ids.len() == 1 {
            assert(ids[0] == max_id(ids));
        } else if ids.last() as int > max_id(ids.drop_last()) {
            assert(ids[ids.len() - 1] == max_id(ids));
        } else {
            let j = choose|j: int| 0 <= j < ids.len() - 1 && ids.drop_last()[j] == max_id(ids.drop_last());
            assert(ids[j] == max_id(ids));
        }
    }
}

/// A new group's id is larger than, so different from, every id already in use.
pub proof fn next_id_is_fresh(ids: Seq<i32>)
    ensures
        forall|i: int| 0 <= i < ids.len() ==> ids[i] < next_id(ids),
        forall|i: int| 0 <= i < ids.len() ==> ids[i] != next_id(ids),
{
    lemma_max_id(ids);
}

/// Once a group is stored with the id it was given, the next group gets the id
/// after it: ids are handed out one after another.
pub proof fn next_id_after_insert(ids: Seq<i32>)
    requires
        next_id(ids) <= i32::MAX,
    ensures
        next_id(ids.push(next_id(ids) as i32)) == next_id(ids) + 1,
{
    assert(ids.push(next_id(ids) as i32).drop_last() =~= ids);
}

/// The id for a new group, given the groups already stored. The largest id in use
/// must be below `i32::MAX`, else the next one would not fit.
pub fn next_group_id(groups: &Vec<Group>) -> (id: i32)
    requires
        max_id(group_ids(groups@)) < i32::MAX,
    ensures
        id == next_id(group_ids(groups@)),
{
    let ghost ids = group_ids(groups@);
    if groups.len() == 0 {
        return 0;
    }
    let mut max: i32 = groups[0].id;
    let mut i: usize = 1;
    assert(ids.take(1) =~= seq![max]);
    while i < groups.len()
        invariant
            1 <= i <= groups.len(),
            ids == group_ids(groups@),
            max_id(ids) < i32::MAX,
            max == max_id(ids.take(i as int)),
        decreases groups.len() - i,
    {
        let id = groups[i].id;
        assert(ids.take(i + 1).drop_last() =~= ids.take(i as int));
        assert(ids.take(i + 1).last() == id);
        if id > max {
            max = id;
        }
        i = i + 1;
    }
    assert(ids.take(groups.len() as int) =~= ids);
    max + 1
}

/// The group to store for a creation request: the next id and the requested name.
pub fn new_group(groups: &Vec<Group>, input: GroupInput) -> (g: Group)
    requires
        max_id(group_ids(groups@)) < i32::MAX,
    ensures
        g.id == next_id(group_ids(groups@)),
        g.name == input.name,
{
    Group { id: next_group_id(groups), name: input.name }
}

/// The group to store for a creation request, from the listing of the groups
/// already stored; a failed listing is answered with 500 and its error.
pub fn create_group_plan(listed: Result<Vec<Group>, String>, input: GroupInput) -> (res: Result<
    Group,
    Reply,
>)
    requires
        listed is Ok ==> max_id(group_ids(listed->Ok_0@)) < i32::MAX,
    ensures
        match listed {
            Ok(groups) => match res {
                Ok(g) => g.id == next_id(group_ids(groups@)) && g.name == input.name,
                Err(_) => false,
            },
            Err(e) => match res {
                Err(r) => r.status == Status::InternalServerError && r.body == Body::Text(e),
                Ok(_) => false,
            },
        },
{
    match listed {
        Ok(groups) => Ok(new_group(&groups, input)),
        Err(e) => Err(storage_error(e)),
    }
}

/// The answer to a listing of all groups: 200 with the list, or 500 with the error.
pub fn get_groups_reply(listed: Result<Vec<Group>, String>) -> (r: Reply)
    ensures
        match listed {
            Ok(groups) => r.status == Status::Success && r.body == Body::Groups(groups),
            Err(e) => r.status == Status::InternalServerError && r.body == Body::Text(e),
        },
{
    match listed {
        Ok(groups) => Reply { status: Status::Success, body: Body::Groups(groups) },
        Err(e) => storage_error(e),
    }
}

/// The answer to a read of one group: 200 with the group, 404 where there is none,
/// or 500 with the error.
pub fn get_group_reply(found: Result<Option<Group>, String>) -> (r: Reply)
    ensures
        match found {
            Ok(Some(g)) => r.status == Status::Success && r.body == Body::Group(g),
            Ok(None) => r.status == Status::NotFound && r.body is Empty,
            Err(e) => r.status == Status::InternalServerError && r.body == Body::Text(e),
        },
{
    match found {
        Ok(Some(g)) => Reply { status: Status::Success, body: Body::Group(g) },
        Ok(None) => empty_reply(Status::NotFound),
        Err(e) => storage_error(e),
    }
}

/// The answer to a change that names one group, from the number of groups it
/// changed: 200 where it changed one, 404 where it changed none, or 500 with the error.
pub fn group_change_reply(changed: Result<u64, String>) -> (r: Reply)
    ensures
        match changed {
            Ok(n) => r.body is Empty && (if n > 0 {
                r.status == Status::Success
            } else {
                r.status == Status::NotFound
            }),
            Err(e) => r.status == Status::InternalServerError && r.body == Body::Text(e),
        },
{
    match changed {
        Ok(n) => if n > 0 {
            empty_reply(Status::Success)
        } else {
            empty_reply(Status::NotFound)
        },
        Err(e) => storage_error(e),
    }
}

/// Whether a group may be deleted, from the count of its students: `None` lets
/// the deletion go ahead; otherwise the answer that refuses it, 400 where the group
/// still has students and 500 where counting failed.
pub fn delete_group_guard(counted: Result<i64, String>) -> (refusal: Option<Reply>)
    ensures
        match counted {
            Ok(n) => if n > 0 {
                match refusal {
                    Some(r) => r.status == Status::BadRequest && (match r.body {
                        Body::Text(t) => t@ == "Cannot delete group with existing students"@,
                        _ => false,
                    }),
                    None => false,
                }
            } else {
                refusal is None
            },
            Err(e) => match refusal {
                Some(r) => r.status == Status::InternalServerError && r.body == Body::Text(e),
                None => false,
            },
        },
{
    match counted {
        Ok(n) => if n > 0 {
            Some(
                text_reply(
                    Status::BadRequest,
                    String::from_str("Cannot delete group with existing students"),
                ),
            )
        } else {
            None
        },
        Err(e) => Some(storage_error(e)),
    }
}

} // verus!
