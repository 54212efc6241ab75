//! The answers that the request handlers give.
use vstd::prelude::*;

use crate::model::{Group, Student};

verus! {

/// The HTTP status of an answer.
#[derive(PartialEq, Eq, Structural, Clone, Copy, Debug)]
pub enum Status {
    /// 200
    Success,
    /// 400
    BadRequest,
    /// 404
    NotFound,
    /// 500
    InternalServerError,
}

/// The body of an answer.
#[derive(Debug)]
pub enum Body {
    /// No body.
    Empty,
    /// A plain text body.
    Text(String),
    /// A JSON list of students.
    Students(Vec<Student>),
    /// A JSON student.
    Student(Student),
    /// A JSON list of groups.
    Groups(Vec<Group>),
    /// A JSON group.
    Group(Group),
    /// Raw bytes of the given content type.
    Image { content_type: String, data: Vec<u8> },
}

/// An answer to a request.
#[derive(Debug)]
pub struct Reply {
    pub status: Status,
    pub body: Body,
}

/// An answer with a status and no body.
pub fn empty_reply(status: Status) -> (r: Reply)
    ensures
        r.status == status,
        r.body is Empty,
{
    Reply { status, body: Body::Empty }
}

/// An answer with a status and a text body.
pub fn text_reply(status: Status, text: String) -> (r: Reply)
    ensures
        r.status == status,
        r.body == Body::Text(text),
{
    Reply { status, body: Body::Text(text) }
}

/// The answer to a storage error: 500 with the error's text.
pub fn storage_error(message: String) -> (r: Reply)
    ensures
        r.status == Status::InternalServerError,
        r.body == Body::Text(message),
{
    text_reply(Status::InternalServerError, message)
}

} // verus!
