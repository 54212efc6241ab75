//! The student form, read field by field from a multipart body.
//!
//! For each field the caller first asks `begin_field` what to do with it (from
//! its name and content type, before any of its bytes are read), then reads the
//! field's body and hands it to `finish_field`, which records the value in the
//! form. The first error ends the form.
use vstd::prelude::*;

use crate::model::{empty_form, FormState, StudentForm};
use crate::number::{int_field, int_field_value};
use crate::text::{concat, decode_lossy, utf8_lossy};

verus! {

/// The text fields of the student form.
#[derive(PartialEq, Eq, Structural, Clone, Copy, Debug)]
pub enum TextField {
    /// `studentId`
    Id,
    /// `studentName`
    Name,
    /// `studentSurname`
    Surname,
    /// `studentGroup`
    Group,
}

/// What to do with a field once its name and content type are known.
#[derive(Debug)]
pub enum FieldAction {
    /// Read the body as the student's photo, of the given content type.
    ReadImage { image_type: String },
    /// Read the body as the value of a text field.
    ReadText(TextField),
}

/// Why a form was refused.
#[derive(Debug)]
pub enum FormError {
    /// A photo field came without a content type.
    MissingContentType,
    /// A photo field had an empty body.
    EmptyImage,
    /// Reading a photo's body failed, with the reader's message.
    ImageRead(String),
    /// Reading a text field's body failed, with the reader's message.
    FieldRead(String),
    /// A field had a name that the form does not know (the empty name where it had none).
    UnrecognizedKey(String),
}

pub enum ActionView {
    ReadImage(Seq<char>),
    ReadText(TextField),
}

pub enum FormErrorView {
    MissingContentType,
    EmptyImage,
    ImageRead(Seq<char>),
    FieldRead(Seq<char>),
    UnrecognizedKey(Seq<char>),
}

impl View for FieldAction {
    type V = ActionView;

    open spec fn view(&self) -> ActionView {
        match self {
            FieldAction::ReadImage { image_type } => ActionView::ReadImage(image_type@),
            FieldAction::ReadText(k) => ActionView::ReadText(*k),
        }
    }
}

impl View for FormError {
    type V = FormErrorView;

    open spec fn view(&self) -> FormErrorView {
        match self {
            FormError::MissingContentType => FormErrorView::MissingContentType,
            FormError::EmptyImage => FormErrorView::EmptyImage,
            FormError::ImageRead(e) => FormErrorView::ImageRead(e@),
            FormError::FieldRead(e) => FormErrorView::FieldRead(e@),
            FormError::UnrecognizedKey(k) => FormErrorView::UnrecognizedKey(k@),
        }
    }
}

/// A field as received: its name and content type where it had them, and its body
/// or the message of the error that ended reading it.
pub struct FieldView {
    pub name: Option<Seq<char>>,
    pub content_type: Option<Seq<char>>,
    pub body: Result<Seq<u8>, Seq<char>>,
}

pub open spec fn name_or_empty(name: Option<Seq<char>>) -> Seq<char> {
    match name {
        Some(n) => n,
        None => Seq::empty(),
    }
}

/// What to do with a field, decided from its name and content type.
pub open spec fn begin_spec(name: Option<Seq<char>>, content_type: Option<Seq<char>>) -> Result<
    ActionView,
    FormErrorView,
> {
    let n = name_or_empty(name);
    if n == "studentPhoto"@ {
        match content_type {
            Some(t) => Ok(ActionView::ReadImage(t)),
            None => Err(FormErrorView::MissingContentType),
        }
    } else if n == "studentId"@ {
        Ok(ActionView::ReadText(TextField::Id))
    } else if n == "studentName"@ {
        Ok(ActionView::ReadText(TextField::Name))
    } else if n == "studentSurname"@ {
        Ok(ActionView::ReadText(TextField::Surname))
    } else if n == "studentGroup"@ {
        Ok(ActionView::ReadText(TextField::Group))
    } else {
        Err(FormErrorView::UnrecognizedKey(n))
    }
}

/// The form after a text field with the given body.
pub open spec fn set_text(form: FormState, field: TextField, body: Seq<u8>) -> FormState {
    let value = utf8_lossy(body);
    match field {
        TextField::Id => FormState { id: int_field_value(value), ..form },
        TextField::Name => FormState { name: value, ..form },
        TextField::Surname => FormState { surname: value, ..form },
        TextField::Group => FormState { group_id: int_field_value(value), ..form },
    }
}

/// The form after a field's body has been read.
pub open spec fn finish_spec(
    form: FormState,
    action: ActionView,
    body: Result<Seq<u8>, Seq<char>>,
) -> Result<FormState, FormErrorView> {
    match (action, body) {
        (ActionView::ReadImage(_), Err(e)) => Err(FormErrorView::ImageRead(e)),
        (ActionView::ReadText(_), Err(e)) => Err(FormErrorView::FieldRead(e)),
        (ActionView::ReadImage(t), Ok(data)) => if data.len() > 0 {
            Ok(FormState { image_data: Some((data, t)), ..form })
        } else {
            Err(FormErrorView::EmptyImage)
        },
        (ActionView::ReadText(k), Ok(data)) => Ok(set_text(form, k, data)),
    }
}

/// The form after one whole field.
pub open spec fn apply_field(form: FormState, field: FieldView) -> Result<FormState, FormErrorView> {
    match begin_spec(field.name, field.content_type) {
        Err(e) => Err(e),
        Ok(action) => finish_spec(form, action, field.body),
    }
}

/// The form after a sequence of fields, read in order; the first error ends it.
pub open spec fn apply_fields(fields: Seq<FieldView>) -> Result<FormState, FormErrorView>
    decreases fields.len(),
{
    if fields.len() == 0 {
        Ok(empty_form())
    } else {
        match apply_fields(fields.drop_last()) {
            Err(e) => Err(e),
            Ok(form) => apply_field(form, fields.last()),
        }
    }
}

pub open spec fn option_view(s: Option<String>) -> Option<Seq<char>> {
    match s {
        Some(s) => Some(s@),
        None => None,
    }
}

pub open spec fn body_view(body: Result<Vec<u8>, String>) -> Result<Seq<u8>, Seq<char>> {
    match body {
        Ok(data) => Ok(data@),
        Err(e) => Err(e@),
    }
}

/// Decides what to do with a field from its name and content type, before its body is read.
pub fn begin_field(name: Option<String>, content_type: Option<String>) -> (res: Result<
    FieldAction,
    FormError,
>)
    ensures
        match (res, begin_spec(option_view(name), option_view(content_type))) {
            (Ok(a), Ok(b)) => a@ == b,
            (Err(a), Err(b)) => a@ == b,
            _ => false,
        },
{
    let n = match name {
        Some(n) => n,
        None => String::new(),
    };
    if n == String::from_str("studentPhoto") {
        match content_type {
            Some(t) => Ok(FieldAction::ReadImage { image_type: t }),
            None => Err(FormError::MissingContentType),
        }
    } else if n == String::from_str("studentId") {
        Ok(FieldAction::ReadText(TextField::Id))
    } else if n == String::from_str("studentName") {
        Ok(FieldAction::ReadText(TextField::Name))
    } else if n == String::from_str("studentSurname") {
        Ok(FieldAction::ReadText(TextField::Surname))
    } else if n == String::from_str("studentGroup") {
        Ok(FieldAction::ReadText(TextField::Group))
    } else {
        Err(FormError::UnrecognizedKey(n))
    }
}

/// Records a field's body in the form, or says why the form is refused. On an
/// error the form is left as it was.
pub fn finish_field(form: &mut StudentForm, action: FieldAction, body: Result<Vec<u8>, String>) -> (res:
    Result<(), FormError>)
    ensures
        match finish_spec(old(form)@, action@, body_view(body)) {
            Ok(s) => res is Ok && final(form)@ == s,
            Err(e) => (match res {
                Err(r) => r@ == e,
                Ok(_) => false,
            }) && final(form)@ == old(form)@,
        },
{
    match (action, body) {
        (FieldAction::ReadImage { .. }, Err(e)) => Err(FormError::ImageRead(e)),
        (FieldAction::ReadText(_), Err(e)) => Err(FormError::FieldRead(e)),
        (FieldAction::ReadImage { image_type }, Ok(data)) => {
            if data.len() > 0 {
                form.image_data = Some((data, image_type));
                Ok(())
            } else {
                Err(FormError::EmptyImage)
            }
        },
        (FieldAction::ReadText(k), Ok(data)) => {
            let value = decode_lossy(data.as_slice());
            match k {
                TextField::Id => form.id = int_field(value.as_str()),
                TextField::Name => form.name = value,
                TextField::Surname => form.surname = value,
                TextField::Group => form.group_id = int_field(value.as_str()),
            }
            Ok(())
        },
    }
}

/// The text of the error answer for a refused form.
pub fn form_error_message(err: &FormError) -> (msg: String)
    ensures
        msg@ == form_error_text(err@),
{
    match err {
        FormError::MissingContentType => String::from_str(
            "Invalid image format. Content-Type is missing.",
        ),
        FormError::EmptyImage => String::from_str("Empty image data received"),
        FormError::ImageRead(e) => concat("Failed to read image data: ", e.as_str()),
        FormError::FieldRead(e) => concat("Failed to read field data: ", e.as_str()),
        FormError::UnrecognizedKey(k) => concat("Unrecognized key: ", k.as_str()),
    }
}

pub open spec fn form_error_text(err: FormErrorView) -> Seq<char> {
    match err {
        FormErrorView::MissingContentType => "Invalid image format. Content-Type is missing."@,
        FormErrorView::EmptyImage => "Empty image data received"@,
        FormErrorView::ImageRead(e) => "Failed to read image data: "@ + e,
        FormErrorView::FieldRead(e) => "Failed to read field data: "@ + e,
        FormErrorView::UnrecognizedKey(k) => "Unrecognized key: "@ + k,
    }
}

/// Whether some field in `fields` has the name `name`.
pub open spec fn sends(fields: Seq<FieldView>, name: Seq<char>) -> bool {
    exists|i: int| 0 <= i < fields.len() && name_or_empty(#[trigger] fields[i].name) == name
}

/// The names the form knows.
pub open spec fn known_name(name: Seq<char>) -> bool {
    name == "studentPhoto"@ || name == "studentId"@ || name == "studentName"@ || name
        == "studentSurname"@ || name == "studentGroup"@
}

/// A form never keeps a photo without bytes.
pub proof fn stored_image_is_never_empty(fields: Seq<FieldView>)
    ensures
        apply_fields(fields) matches Ok(s) ==> (s.image_data matches Some(img) ==> img.0.len() > 0),
    decreases fields.len(),
{
    if fields.len() > 0 {
        stored_image_is_never_empty(fields.drop_last());
    }
}

proof fn lemma_sends_drop_last(fields: Seq<FieldView>, name: Seq<char>)
    requires
        fields.len() > 0,
        !sends(fields, name),
    ensures
        !sends(fields.drop_last(), name),
        name_or_empty(fields.last().name) != name,
{
    if sends(fields.drop_last(), name) {
        let i = choose|i: int|
            0 <= i < fields.drop_last().len() && name_or_empty(
                #[trigger] fields.drop_last()[i].name,
            ) == name;
        assert(fields[i] == fields.drop_last()[i]);
    }
    assert(fields[fields.len() - 1] == fields.last());
}

/// A field that was not sent keeps its default: 0 for the numbers, the empty
/// string for the names, no photo.
pub proof fn unsent_fields_keep_defaults(fields: Seq<FieldView>)
    ensures
        apply_fields(fields) matches Ok(s) ==> {
            &&& !sends(fields, "studentId"@) ==> s.id == 0
            &&& !sends(fields, "studentName"@) ==> s.name == Seq::<char>::empty()
            &&& !sends(fields, "studentSurname"@) ==> s.surname == Seq::<char>::empty()
            &&& !sends(fields, "studentGroup"@) ==> s.group_id == 0
            &&& !sends(fields, "studentPhoto"@) ==> s.image_data is None
        },
    decreases fields.len(),
{
    if fields.len() > 0 {
        let prefix = fields.drop_last();
        unsent_fields_keep_defaults(prefix);
        if !sends(fields, "studentId"@) {
            lemma_sends_drop_last(fields, "studentId"@);
        }
        if !sends(fields, "studentName"@) {
            lemma_sends_drop_last(fields, "studentName"@);
        }
        if !sends(fields, "studentSurname"@) {
            lemma_sends_drop_last(fields, "studentSurname"@);
        }
        if !sends(fields, "studentGroup"@) {
            lemma_sends_drop_last(fields, "studentGroup"@);
        }
        if !sends(fields, "studentPhoto"@) {
            lemma_sends_drop_last(fields, "studentPhoto"@);
        }
    }
}

/// The last value sent for a text field is the one the form keeps.
pub proof fn last_text_field_wins(fields: Seq<FieldView>, last: FieldView)
    requires
        last.body is Ok,
    ensures
        apply_fields(fields.push(last)) matches Ok(s) ==> {
            let value = utf8_lossy(last.body->Ok_0);
            &&& name_or_empty(last.name) == "studentName"@ ==> s.name == value
            &&& name_or_empty(last.name) == "studentSurname"@ ==> s.surname == value
            &&& name_or_empty(last.name) == "studentId"@ ==> s.id == int_field_value(value)
            &&& name_or_empty(last.name) == "studentGroup"@ ==> s.group_id == int_field_value(
                value,
            )
        },
{
    reveal_strlit("studentPhoto");
    reveal_strlit("studentId");
    reveal_strlit("studentName");
    reveal_strlit("studentSurname");
    reveal_strlit("studentGroup");
    assert(fields.push(last).drop_last() =~= fields);
    assert(fields.push(last).last() == last);
    assert("studentGroup"@[7] != "studentPhoto"@[7]);
    assert("studentGroup"@ != "studentPhoto"@);
    assert("studentSurname"@.len() != "studentPhoto"@.len());
    assert("studentName"@.len() != "studentPhoto"@.len());
    assert("studentId"@.len() != "studentPhoto"@.len());
    assert("studentName"@.len() != "studentId"@.len());
    assert("studentSurname"@.len() != "studentId"@.len());
    assert("studentGroup"@.len() != "studentId"@.len());
    assert("studentSurname"@.len() != "studentName"@.len());
    assert("studentGroup"@.len() != "studentName"@.len());
    assert("studentGroup"@.len() != "studentSurname"@.len());
    let n = name_or_empty(last.name);
    let b = begin_spec(last.name, last.content_type);
    if n == "studentName"@ {
        assert(b == Ok::<ActionView, FormErrorView>(ActionView::ReadText(TextField::Name)));
    } else if n == "studentSurname"@ {
        assert(b == Ok::<ActionView, FormErrorView>(ActionView::ReadText(TextField::Surname)));
    } else if n == "studentId"@ {
        assert(b == Ok::<ActionView, FormErrorView>(ActionView::ReadText(TextField::Id)));
    } else if n == "studentGroup"@ {
        assert(b == Ok::<ActionView, FormErrorView>(ActionView::ReadText(TextField::Group)));
    }
}

/// A field with a name the form does not know refuses the whole form, whatever
/// the other fields hold.
pub proof fn unknown_field_refuses_form(fields: Seq<FieldView>, i: int)
    requires
        0 <= i < fields.len(),
        !known_name(name_or_empty(fields[i].name)),
    ensures
        apply_fields(fields) is Err,
    decreases fields.len(),
{
    if i < fields.len() - 1 {
        assert(fields.drop_last()[i] == fields[i]);
        unknown_field_refuses_form(fields.drop_last(), i);
    }
}

/// The form after field `a` and then field `b`.
pub open spec fn apply_two(form: FormState, a: FieldView, b: FieldView) -> Result<
    FormState,
    FormErrorView,
> {
    match apply_field(form, a) {
        Ok(s) => apply_field(s, b),
        Err(e) => Err(e),
    }
}

/// Fields with different names may come in either order: where one order is
/// accepted, so is the other, with the same form.
pub proof fn distinct_fields_commute(form: FormState, a: FieldView, b: FieldView)
    requires
        name_or_empty(a.name) != name_or_empty(b.name),
    ensures
        apply_two(form, a, b) is Ok ==> apply_two(form, b, a) == apply_two(form, a, b),
{
}

/// A photo with a non-empty body is kept whole: the form's photo is exactly the
/// bytes received, of every length, with the content type the field came with,
/// and no other part of the form changes. An empty body is refused.
pub proof fn photo_is_kept_whole(form: FormState, image_type: Seq<char>, data: Seq<u8>)
    ensures
        data.len() > 0 ==> match finish_spec(form, ActionView::ReadImage(image_type), Ok(data)) {
            Ok(s) => {
                &&& s.image_data == Some((data, image_type))
                &&& s.image_data->Some_0.0.len() == data.len()
                &&& s.id == form.id
                &&& s.name == form.name
                &&& s.surname == form.surname
                &&& s.group_id == form.group_id
            },
            Err(_) => false,
        },
        data.len() == 0 ==> finish_spec(form, ActionView::ReadImage(image_type), Ok(data))
            == Err::<FormState, FormErrorView>(FormErrorView::EmptyImage),
        data.len() > 0 ==> match apply_field(
            form,
            FieldView { name: Some("studentPhoto"@), content_type: Some(image_type), body: Ok(data) },
        ) {
            Ok(s) => s.image_data == Some((data, image_type)),
            Err(_) => false,
        },
{
}

} // verus!
