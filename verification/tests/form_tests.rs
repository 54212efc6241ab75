use lab_5::form::{begin_field, finish_field, form_error_message, FieldAction, FormError, TextField};
use lab_5::model::StudentForm;

fn s(x: &str) -> Option<String> {
    Some(x.to_string())
}

fn text_kind(name: &str) -> TextField {
    match begin_field(s(name), None) {
        Ok(FieldAction::ReadText(k)) => k,
        other => panic!("unexpected {:?}", other),
    }
}

/// Reads one whole field into the form, as a client of the library does.
fn field(form: &mut StudentForm, name: &str, content_type: Option<&str>, body: &[u8]) -> Result<(), FormError> {
    let action = begin_field(s(name), content_type.map(|t| t.to_string()))?;
    finish_field(form, action, Ok(body.to_vec()))
}

#[test]
fn text_fields_are_recognized() {
    assert_eq!(text_kind("studentId"), TextField::Id);
    assert_eq!(text_kind("studentName"), TextField::Name);
    assert_eq!(text_kind("studentSurname"), TextField::Surname);
    assert_eq!(text_kind("studentGroup"), TextField::Group);
}

#[test]
fn photo_needs_a_content_type() {
    match begin_field(s("studentPhoto"), s("image/png")) {
        Ok(FieldAction::ReadImage { image_type }) => assert_eq!(image_type, "image/png"),
        other => panic!("unexpected {:?}", other),
    }
    assert!(matches!(begin_field(s("studentPhoto"), None), Err(FormError::MissingContentType)));
}

#[test]
fn unknown_or_missing_names_are_refused() {
    match begin_field(s("nickname"), s("text/plain")) {
        Err(FormError::UnrecognizedKey(k)) => assert_eq!(k, "nickname"),
        other => panic!("unexpected {:?}", other),
    }
    match begin_field(None, None) {
        Err(FormError::UnrecognizedKey(k)) => assert_eq!(k, ""),
        other => panic!("unexpected {:?}", other),
    }
    match begin_field(s("StudentName"), None) {
        Err(FormError::UnrecognizedKey(k)) => assert_eq!(k, "StudentName"),
        other => panic!("unexpected {:?}", other),
    }
}

#[test]
fn a_full_form_is_recorded() {
    let mut form = StudentForm::new();
    field(&mut form, "studentId", None, b"15").unwrap();
    field(&mut form, "studentName", None, b"Ada").unwrap();
    field(&mut form, "studentSurname", None, b"Lovelace").unwrap();
    field(&mut form, "studentGroup", None, b"3").unwrap();
    field(&mut form, "studentPhoto", Some("image/jpeg"), &[1, 2, 3]).unwrap();
    assert_eq!(form.id, 15);
    assert_eq!(form.name, "Ada");
    assert_eq!(form.surname, "Lovelace");
    assert_eq!(form.group_id, 3);
    assert_eq!(form.image_data, Some((vec![1, 2, 3], "image/jpeg".to_string())));
}

#[test]
fn a_form_without_fields_keeps_its_defaults() {
    let mut form = StudentForm::new();
    field(&mut form, "studentName", None, b"Bob").unwrap();
    assert_eq!(form.id, 0);
    assert_eq!(form.surname, "");
    assert_eq!(form.group_id, 0);
    assert!(form.image_data.is_none());
    let empty = StudentForm::new();
    assert_eq!((empty.id, empty.name.as_str(), empty.group_id), (0, "", 0));
}

#[test]
fn the_last_value_of_a_field_wins() {
    let mut form = StudentForm::new();
    field(&mut form, "studentName", None, b"First").unwrap();
    field(&mut form, "studentName", None, b"Second").unwrap();
    field(&mut form, "studentGroup", None, b"4").unwrap();
    field(&mut form, "studentGroup", None, b"x").unwrap();
    assert_eq!(form.name, "Second");
    assert_eq!(form.group_id, 0);
}

#[test]
fn numbers_that_do_not_parse_become_zero() {
    let mut form = StudentForm::new();
    field(&mut form, "studentId", None, b"12abc").unwrap();
    assert_eq!(form.id, 0);
    field(&mut form, "studentId", None, b"-5").unwrap();
    assert_eq!(form.id, -5);
}

#[test]
fn invalid_utf8_is_replaced() {
    let mut form = StudentForm::new();
    field(&mut form, "studentName", None, &[b'f', 0xff, b'o']).unwrap();
    assert_eq!(form.name, "f\u{FFFD}o");
    field(&mut form, "studentId", None, &[b'1', 0xff]).unwrap();
    assert_eq!(form.id, 0);
}

#[test]
fn an_empty_photo_is_refused_and_changes_nothing() {
    let mut form = StudentForm::new();
    field(&mut form, "studentName", None, b"Ada").unwrap();
    let err = field(&mut form, "studentPhoto", Some("image/png"), &[]).unwrap_err();
    assert!(matches!(err, FormError::EmptyImage));
    assert!(form.image_data.is_none());
    assert_eq!(form.name, "Ada");
}

#[test]
fn read_errors_are_reported_by_field_kind() {
    let mut form = StudentForm::new();
    let photo = begin_field(s("studentPhoto"), s("image/png")).unwrap();
    match finish_field(&mut form, photo, Err("stream closed".to_string())) {
        Err(FormError::ImageRead(e)) => assert_eq!(e, "stream closed"),
        other => panic!("unexpected {:?}", other),
    }
    let name = begin_field(s("studentName"), None).unwrap();
    match finish_field(&mut form, name, Err("boom".to_string())) {
        Err(FormError::FieldRead(e)) => assert_eq!(e, "boom"),
        other => panic!("unexpected {:?}", other),
    }
    assert!(form.image_data.is_none());
    assert_eq!(form.name, "");
}

#[test]
fn error_messages() {
    assert_eq!(
        form_error_message(&FormError::MissingContentType),
        "Invalid image format. Content-Type is missing."
    );
    assert_eq!(form_error_message(&FormError::EmptyImage), "Empty image data received");
    assert_eq!(
        form_error_message(&FormError::ImageRead("x".to_string())),
        "Failed to read image data: x"
    );
    assert_eq!(
        form_error_message(&FormError::FieldRead("y".to_string())),
        "Failed to read field data: y"
    );
    assert_eq!(
        form_error_message(&FormError::UnrecognizedKey("age".to_string())),
        "Unrecognized key: age"
    );
}

#[test]
fn distinct_fields_may_come_in_either_order() {
    let mut one = StudentForm::new();
    field(&mut one, "studentPhoto", Some("image/png"), &[7]).unwrap();
    field(&mut one, "studentSurname", None, b"Curie").unwrap();
    let mut two = StudentForm::new();
    field(&mut two, "studentSurname", None, b"Curie").unwrap();
    field(&mut two, "studentPhoto", Some("image/png"), &[7]).unwrap();
    assert_eq!(format!("{:?}", one), format!("{:?}", two));
}

#[test]
fn an_unknown_field_refuses_the_form_after_good_ones() {
    let mut form = StudentForm::new();
    field(&mut form, "studentName", None, b"Ada").unwrap();
    let err = field(&mut form, "email", None, b"a@b.c").unwrap_err();
    assert!(matches!(err, FormError::UnrecognizedKey(k) if k == "email"));
}
