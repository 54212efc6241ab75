use lab_5::groups::{
    create_group_plan, delete_group_guard, get_group_reply, get_groups_reply, group_change_reply,
    new_group, next_group_id,
};
use lab_5::model::{Group, GroupInput};
use lab_5::reply::{Body, Status};

fn groups(ids: &[i32]) -> Vec<Group> {
    ids.iter().map(|&id| Group { id, name: format!("g{}", id) }).collect()
}

#[test]
fn first_group_gets_zero() {
    assert_eq!(next_group_id(&groups(&[])), 0);
}

#[test]
fn next_id_is_one_above_the_largest() {
    assert_eq!(next_group_id(&groups(&[3, -7, 1])), 4);
    assert_eq!(next_group_id(&groups(&[0, 0])), 1);
    assert_eq!(next_group_id(&groups(&[-9])), -8);
    assert_eq!(next_group_id(&groups(&[i32::MAX - 1])), i32::MAX);
}

#[test]
fn next_id_is_fresh() {
    let existing = groups(&[5, 2, 9, -1, 4]);
    let id = next_group_id(&existing);
    assert!(existing.iter().all(|g| g.id < id && g.id != id));
}

#[test]
fn ids_are_handed_out_one_after_another() {
    let mut existing = groups(&[2, 7]);
    let first = new_group(&existing, GroupInput { name: "A".to_string() });
    assert_eq!(first.id, 8);
    assert_eq!(first.name, "A");
    existing.push(first);
    let second = new_group(&existing, GroupInput { name: "B".to_string() });
    assert_eq!(second.id, 9);
}

#[test]
fn creation_plan() {
    match create_group_plan(Ok(groups(&[1])), GroupInput { name: "N".to_string() }) {
        Ok(g) => {
            assert_eq!(g.id, 2);
            assert_eq!(g.name, "N");
        },
        Err(r) => panic!("unexpected {:?}", r),
    }
    match create_group_plan(Err("down".to_string()), GroupInput { name: "N".to_string() }) {
        Err(r) => {
            assert_eq!(r.status, Status::InternalServerError);
            assert!(matches!(&r.body, Body::Text(t) if t == "down"));
        },
        Ok(g) => panic!("unexpected {:?}", g),
    }
}

#[test]
fn group_read_replies() {
    let r = get_groups_reply(Ok(groups(&[1, 2])));
    assert_eq!(r.status, Status::Success);
    assert!(matches!(&r.body, Body::Groups(v) if v.len() == 2));
    let r = get_groups_reply(Err("x".to_string()));
    assert_eq!(r.status, Status::InternalServerError);
    assert!(matches!(&r.body, Body::Text(t) if t == "x"));
    let r = get_group_reply(Ok(Some(Group { id: 3, name: "C".to_string() })));
    assert_eq!(r.status, Status::Success);
    assert!(matches!(&r.body, Body::Group(g) if g.id == 3 && g.name == "C"));
    let r = get_group_reply(Ok(None));
    assert_eq!(r.status, Status::NotFound);
    assert!(matches!(r.body, Body::Empty));
    assert_eq!(get_group_reply(Err("y".to_string())).status, Status::InternalServerError);
}

#[test]
fn change_replies_depend_on_the_count() {
    let r = group_change_reply(Ok(1));
    assert_eq!(r.status, Status::Success);
    assert!(matches!(r.body, Body::Empty));
    let r = group_change_reply(Ok(0));
    assert_eq!(r.status, Status::NotFound);
    assert!(matches!(r.body, Body::Empty));
    let r = group_change_reply(Err("z".to_string()));
    assert_eq!(r.status, Status::InternalServerError);
    assert!(matches!(&r.body, Body::Text(t) if t == "z"));
}

#[test]
fn a_group_with_students_is_not_deleted() {
    let r = delete_group_guard(Ok(3)).expect("refused");
    assert_eq!(r.status, Status::BadRequest);
    assert!(matches!(&r.body, Body::Text(t) if t == "Cannot delete group with existing students"));
    assert!(delete_group_guard(Ok(0)).is_none());
    let r = delete_group_guard(Err("count failed".to_string())).expect("refused");
    assert_eq!(r.status, Status::InternalServerError);
    assert!(matches!(&r.body, Body::Text(t) if t == "count failed"));
}
