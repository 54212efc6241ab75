use vstd::prelude::*;

verus! {

/// A study group, as stored in the group collection.
#[derive(Debug)]
pub struct Group {
    pub id: i32,
    pub name: String,
}

/// The name given for a new group or for a renamed one.
#[derive(Debug)]
pub struct GroupInput {
    pub name: String,
}

/// A student row without its photo.
#[derive(Debug)]
pub struct Student {
    pub id: i32,
    pub name: String,
    pub surname: String,
    pub group_id: i32,
}

/// The photo columns of a student row; either may be absent.
#[derive(Debug)]
pub struct ImageData {
    pub image_data: Option<Vec<u8>>,
    pub image_type: Option<String>,
}

/// The fields of a student form as they were received; those that were not
/// sent keep their defaults (0, the empty string, no photo).
#[derive(Debug)]
pub struct StudentForm {
    pub id: i32,
    pub name: String,
    pub surname: String,
    pub group_id: i32,
    /// The photo's bytes and its content type.
    pub image_data: Option<(Vec<u8>, String)>,
}

/// The mathematical content of a `StudentForm`.
pub struct FormState {
    pub id: i32,
    pub name: Seq<char>,
    pub surname: Seq<char>,
    pub group_id: i32,
    pub image_data: Option<(Seq<u8>, Seq<char>)>,
}

/// The form before any field has been read.
pub open spec fn empty_form() -> FormState {
    FormState {
        id: 0,
        name: Seq::empty(),
        surname: Seq::empty(),
        group_id: 0,
        image_data: None,
    }
}

impl View for StudentForm {
    type V = FormState;

    open spec fn view(&self) -> FormState {
        FormState {
            id: self.id,
            name: self.name@,
            surname: self.surname@,
            group_id: self.group_id,
            image_data: match self.image_data {
                Some((data, image_type)) => Some((data@, image_type@)),
                None => None,
            },
        }
    }
}

impl StudentForm {
    /// The form before any field has been read.
    pub fn new() -> (form: Self)
        ensures
            form@ == empty_form(),
    {
        StudentForm {
            id: 0,
            name: String::new(),
            surname: String::new(),
            group_id: 0,
            image_data: None,
        }
    }
}

} // verus!
