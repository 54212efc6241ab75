use lab_5::form::FormError;
use lab_5::model::{ImageData, Student, StudentForm};
use lab_5::reply::{Body, Reply, Status};
use lab_5::students::{
    count_group_students, delete_student_statement, form_refused_reply, get_student_image_reply,
    get_student_reply, get_students_reply, insert_student, select_student, select_student_image,
    select_students, update_student_reply, update_student_statement, write_reply, SqlParam,
};

fn form(id: i32, image: Option<(Vec<u8>, &str)>) -> StudentForm {
    StudentForm {
        id,
        name: "Ada".to_string(),
        surname: "Lovelace".to_string(),
        group_id: 2,
        image_data: image.map(|(d, t)| (d, t.to_string())),
    }
}

fn text(r: &Reply) -> &str {
    match &r.body {
        Body::Text(t) => t.as_str(),
        other => panic!("not text: {:?}", other),
    }
}

fn student(id: i32) -> Student {
    Student { id, name: "Ada".to_string(), surname: "Lovelace".to_string(), group_id: 1 }
}

#[test]
fn read_statements() {
    let s = select_students();
    assert_eq!(s.text, "SELECT id, name, surname, group_id FROM students");
    assert!(s.params.is_empty());
    let s = select_student(9);
    assert_eq!(s.text, "SELECT id, name, surname, group_id FROM students WHERE id = $1");
    assert!(matches!(s.params.as_slice(), [SqlParam::Int(9)]));
    let s = select_student_image(4);
    assert_eq!(s.text, "SELECT image_data, image_type FROM students WHERE id = $1");
    assert!(matches!(s.params.as_slice(), [SqlParam::Int(4)]));
    let s = count_group_students(3);
    assert_eq!(s.text, "SELECT COUNT(*) FROM students WHERE group_id = $1");
    assert!(matches!(s.params.as_slice(), [SqlParam::Int(3)]));
    let s = delete_student_statement(8);
    assert_eq!(s.text, "DELETE FROM students WHERE id = $1");
    assert!(matches!(s.params.as_slice(), [SqlParam::Int(8)]));
}

#[test]
fn insert_with_and_without_photo() {
    let s = insert_student(form(77, None));
    assert_eq!(s.text, "INSERT INTO students (name, surname, group_id)\n                 VALUES ($1, $2, $3)");
    match s.params.as_slice() {
        [SqlParam::Text(n), SqlParam::Text(sn), SqlParam::Int(2)] => {
            assert_eq!(n, "Ada");
            assert_eq!(sn, "Lovelace");
        },
        other => panic!("unexpected {:?}", other),
    }
    let s = insert_student(form(77, Some((vec![9, 9], "image/png"))));
    assert!(s.text.starts_with("INSERT INTO students (name, surname, group_id, image_data, image_type)"));
    match s.params.as_slice() {
        [SqlParam::Text(_), SqlParam::Text(_), SqlParam::Int(2), SqlParam::Bytes(b), SqlParam::Text(t)] => {
            assert_eq!(b, &vec![9, 9]);
            assert_eq!(t, "image/png");
        },
        other => panic!("unexpected {:?}", other),
    }
}

#[test]
fn insert_ignores_the_form_id() {
    let a = insert_student(form(1, None));
    let b = insert_student(form(500, None));
    assert_eq!(a.text, b.text);
    assert_eq!(format!("{:?}", a.params), format!("{:?}", b.params));
}

#[test]
fn update_targets_the_requested_row() {
    let s = update_student_statement(12, form(99, None));
    assert!(s.text.ends_with("WHERE id = $4"));
    assert!(!s.text.contains("image_data"));
    assert!(matches!(s.params.last(), Some(SqlParam::Int(12))));
    assert_eq!(s.params.len(), 4);
    let s = update_student_statement(12, form(99, Some((vec![1], "image/gif"))));
    assert!(s.text.contains("image_data = $4, image_type = $5"));
    assert!(matches!(s.params.last(), Some(SqlParam::Int(12))));
    assert_eq!(s.params.len(), 6);
}

#[test]
fn listing_replies() {
    let r = get_students_reply(Ok(vec![student(1), student(2)]));
    assert_eq!(r.status, Status::Success);
    assert!(matches!(&r.body, Body::Students(v) if v.len() == 2 && v[1].id == 2));
    let r = get_students_reply(Err("db down".to_string()));
    assert_eq!(r.status, Status::InternalServerError);
    assert_eq!(text(&r), "db down");
}

#[test]
fn single_student_replies() {
    let r = get_student_reply(Ok(Some(student(5))));
    assert_eq!(r.status, Status::Success);
    assert!(matches!(&r.body, Body::Student(s) if s.id == 5));
    let r = get_student_reply(Ok(None));
    assert_eq!(r.status, Status::NotFound);
    assert!(matches!(r.body, Body::Empty));
    let r = get_student_reply(Err("e".to_string()));
    assert_eq!(r.status, Status::InternalServerError);
    assert_eq!(text(&r), "e");
}

#[test]
fn image_replies() {
    let row = ImageData { image_data: Some(vec![1, 2]), image_type: Some("image/png".to_string()) };
    let r = get_student_image_reply(Ok(Some(row)));
    assert_eq!(r.status, Status::Success);
    match &r.body {
        Body::Image { content_type, data } => {
            assert_eq!(content_type, "image/png");
            assert_eq!(data, &vec![1, 2]);
        },
        other => panic!("unexpected {:?}", other),
    }
    let row = ImageData { image_data: Some(vec![1]), image_type: None };
    assert_eq!(get_student_image_reply(Ok(Some(row))).status, Status::NotFound);
    let row = ImageData { image_data: None, image_type: Some("image/png".to_string()) };
    assert_eq!(get_student_image_reply(Ok(Some(row))).status, Status::NotFound);
    assert_eq!(get_student_image_reply(Ok(None)).status, Status::NotFound);
    let r = get_student_image_reply(Err("bad".to_string()));
    assert_eq!(r.status, Status::InternalServerError);
    assert_eq!(text(&r), "Query error in get_student_image: bad");
}

#[test]
fn write_replies() {
    let r = write_reply(Ok(()));
    assert_eq!(r.status, Status::Success);
    assert!(matches!(r.body, Body::Empty));
    let r = write_reply(Err("dup".to_string()));
    assert_eq!(r.status, Status::InternalServerError);
    assert_eq!(text(&r), "dup");
    let r = update_student_reply(Err("gone".to_string()));
    assert_eq!(r.status, Status::InternalServerError);
    assert_eq!(text(&r), "Error update_student: gone");
    assert_eq!(update_student_reply(Ok(())).status, Status::Success);
}

#[test]
fn refused_forms_are_bad_requests() {
    let r = form_refused_reply(FormError::UnrecognizedKey("x".to_string()));
    assert_eq!(r.status, Status::BadRequest);
    assert_eq!(text(&r), "Unrecognized key: x");
    let r = form_refused_reply(FormError::EmptyImage);
    assert_eq!(r.status, Status::BadRequest);
    assert_eq!(text(&r), "Empty image data received");
}
