//! The student endpoints: which SQL statement each one runs, and how it answers.
use vstd::prelude::*;

use crate::form::{form_error_message, form_error_text, FormError};
use crate::model::{FormState, ImageData, Student, StudentForm};
use crate::reply::{empty_reply, storage_error, text_reply, Body, Reply, Status};
use crate::text::concat;

verus! {

/// A value bound to a placeholder of a statement.
#[derive(Debug)]
pub enum SqlParam {
    Int(i32),
    Text(String),
    Bytes(Vec<u8>),
}

/// A statement and the values for its placeholders `$1`, `$2`, ... in order.
#[derive(Debug)]
pub struct SqlStatement {
    pub text: String,
    pub params: Vec<SqlParam>,
}

pub enum ParamView {
    Int(i32),
    Text(Seq<char>),
    Bytes(Seq<u8>),
}

pub struct StatementView {
    pub text: Seq<char>,
    pub params: Seq<ParamView>,
}

impl View for SqlParam {
    type V = ParamView;

    open spec fn view(&self) -> ParamView {
        match self {
            SqlParam::Int(i) => ParamView::Int(*i),
            SqlParam::Text(s) => ParamView::Text(s@),
            SqlParam::Bytes(b) => ParamView::Bytes(b@),
        }
    }
}

impl View for SqlStatement {
    type V = StatementView;

    open spec fn view(&self) -> StatementView {
        StatementView { text: self.text@, params: self.params@.map_values(|p: SqlParam| p@) }
    }
}

pub open spec fn select_students_sql() -> StatementView {
    StatementView { text: "SELECT id, name, surname, group_id FROM students"@, params: seq![] }
}

pub open spec fn select_student_sql(id: i32) -> StatementView {
    StatementView {
        text: "SELECT id, name, surname, group_id FROM students WHERE id = $1"@,
        params: seq![ParamView::Int(id)],
    }
}

pub open spec fn select_student_image_sql(id: i32) -> StatementView {
    StatementView {
        text: "SELECT image_data, image_type FROM students WHERE id = $1"@,
        params: seq![ParamView::Int(id)],
    }
}

/// The statement that stores a new student from a form. The form's `studentId`
/// plays no part: the database gives the new row its id.
pub open spec fn insert_student_sql(form: FormState) -> StatementView {
    match form.image_data {
        Some((data, image_type)) => StatementView {
            text: "INSERT INTO students (name, surname, group_id, image_data, image_type)
                 VALUES ($1, $2, $3, $4, $5)"@,
            params: seq![
                ParamView::Text(form.name),
                ParamView::Text(form.surname),
                ParamView::Int(form.group_id),
                ParamView::Bytes(data),
                ParamView::Text(image_type),
            ],
        },
        None => StatementView {
            text: "INSERT INTO students (name, surname, group_id)
                 VALUES ($1, $2, $3)"@,
            params: seq![
                ParamView::Text(form.name),
                ParamView::Text(form.surname),
                ParamView::Int(form.group_id),
            ],
        },
    }
}

/// The statement that overwrites student `id` from a form; without a photo in the
/// form the stored photo is left as it is. The form's `studentId` plays no part.
pub open spec fn update_student_sql(id: i32, form: FormState) -> StatementView {
    match form.image_data {
        Some((data, image_type)) => StatementView {
            text: "UPDATE students
                 SET name = $1, surname = $2, group_id = $3, image_data = $4, image_type = $5
                 WHERE id = $6"@,
            params: seq![
                ParamView::Text(form.name),
                ParamView::Text(form.surname),
                ParamView::Int(form.group_id),
                ParamView::Bytes(data),
                ParamView::Text(image_type),
                ParamView::Int(id),
            ],
        },
        None => StatementView {
            text: "UPDATE students
                 SET name = $1, surname = $2, group_id = $3
                 WHERE id = $4"@,
            params: seq![
                ParamView::Text(form.name),
                ParamView::Text(form.surname),
                ParamView::Int(form.group_id),
                ParamView::Int(id),
            ],
        },
    }
}

pub open spec fn delete_student_sql(id: i32) -> StatementView {
    StatementView { text: "DELETE FROM students WHERE id = $1"@, params: seq![ParamView::Int(id)] }
}

/// The statement that counts the students of group `group_id`.
pub open spec fn count_group_students_sql(group_id: i32) -> StatementView {
    StatementView {
        text: "SELECT COUNT(*) FROM students WHERE group_id = $1"@,
        params: seq![ParamView::Int(group_id)],
    }
}

/// Builds a statement from its text and parameters.
fn statement(text: &str, params: Vec<SqlParam>) -> (stmt: SqlStatement)
    ensures
        stmt.text@ == text@,
        stmt.params == params,
{
    SqlStatement { text: String::from_str(text), params }
}

/// Lists every student.
pub fn select_students() -> (stmt: SqlStatement)
    ensures
        stmt@ == select_students_sql(),
{
    let stmt = statement("SELECT id, name, surname, group_id FROM students", Vec::new());
    assert(stmt@.params =~= seq![]);
    stmt
}

/// Reads student `id`.
pub fn select_student(id: i32) -> (stmt: SqlStatement)
    ensures
        stmt@ == select_student_sql(id),
{
    let stmt = statement(
        "SELECT id, name, surname, group_id FROM students WHERE id = $1",
        vec![SqlParam::Int(id)],
    );
    assert(stmt@.params =~= seq![ParamView::Int(id)]);
    stmt
}

/// Reads the photo of student `id`.
pub fn select_student_image(id: i32) -> (stmt: SqlStatement)
    ensures
        stmt@ == select_student_image_sql(id),
{
    let stmt = statement(
        "SELECT image_data, image_type FROM students WHERE id = $1",
        vec![SqlParam::Int(id)],
    );
    assert(stmt@.params =~= seq![ParamView::Int(id)]);
    stmt
}

/// Stores a new student from a form.
pub fn insert_student(form: StudentForm) -> (stmt: SqlStatement)
    ensures
        stmt@ == insert_student_sql(form@),
{
    let ghost f = form@;
    let StudentForm { id: _, name, surname, group_id, image_data } = form;
    match image_data {
        Some((data, image_type)) => {
            let stmt = statement(
                "INSERT INTO students (name, surname, group_id, image_data, image_type)
                 VALUES ($1, $2, $3, $4, $5)",
                vec![
                    SqlParam::Text(name),
                    SqlParam::Text(surname),
                    SqlParam::Int(group_id),
                    SqlParam::Bytes(data),
                    SqlParam::Text(image_type),
                ],
            );
            assert(stmt@.params =~= insert_student_sql(f).params);
            stmt
        },
        None => {
            let stmt = statement(
                "INSERT INTO students (name, surname, group_id)
                 VALUES ($1, $2, $3)",
                vec![SqlParam::Text(name), SqlParam::Text(surname), SqlParam::Int(group_id)],
            );
            assert(stmt@.params =~= insert_student_sql(f).params);
            stmt
        },
    }
}

/// Overwrites student `id` from a form.
pub fn update_student_statement(id: i32, form: StudentForm) -> (stmt: SqlStatement)
    ensures
        stmt@ == update_student_sql(id, form@),
{
    let ghost f = form@;
    let StudentForm { id: _, name, surname, group_id, image_data } = form;
    match image_data {
        Some((data, image_type)) => {
            let stmt = statement(
                "UPDATE students
                 SET name = $1, surname = $2, group_id = $3, image_data = $4, image_type = $5
                 WHERE id = $6",
                vec![
                    SqlParam::Text(name),
                    SqlParam::Text(surname),
                    SqlParam::Int(group_id),
                    SqlParam::Bytes(data),
                    SqlParam::Text(image_type),
                    SqlParam::Int(id),
                ],
            );
            assert(stmt@.params =~= update_student_sql(id, f).params);
            stmt
        },
        None => {
            let stmt = statement(
                "UPDATE students
                 SET name = $1, surname = $2, group_id = $3
                 WHERE id = $4",
                vec![
                    SqlParam::Text(name),
                    SqlParam::Text(surname),
                    SqlParam::Int(group_id),
                    SqlParam::Int(id),
                ],
            );
            assert(stmt@.params =~= update_student_sql(id, f).params);
            stmt
        },
    }
}

/// Deletes student `id`.
pub fn delete_student_statement(id: i32) -> (stmt: SqlStatement)
    ensures
        stmt@ == delete_student_sql(id),
{
    let stmt = statement("DELETE FROM students WHERE id = $1", vec![SqlParam::Int(id)]);
    assert(stmt@.params =~= seq![ParamView::Int(id)]);
    stmt
}

/// Counts the students of group `group_id`.
pub fn count_group_students(group_id: i32) -> (stmt: SqlStatement)
    ensures
        stmt@ == count_group_students_sql(group_id),
{
    let stmt = statement(
        "SELECT COUNT(*) FROM students WHERE group_id = $1",
        vec![SqlParam::Int(group_id)],
    );
    assert(stmt@.params =~= seq![ParamView::Int(group_id)]);
    stmt
}

/// The answer to a listing of all students: 200 with the list, or 500 with the error.
pub fn get_students_reply(fetched: Result<Vec<Student>, String>) -> (r: Reply)
    ensures
        match fetched {
            Ok(students) => r.status == Status::Success && r.body == Body::Students(students),
            Err(e) => r.status == Status::InternalServerError && r.body == Body::Text(e),
        },
{
    match fetched {
        Ok(students) => Reply { status: Status::Success, body: Body::Students(students) },
        Err(e) => storage_error(e),
    }
}

/// The answer to a read of one student: 200 with the student, 404 where there is
/// none, or 500 with the error.
pub fn get_student_reply(fetched: Result<Option<Student>, String>) -> (r: Reply)
    ensures
        match fetched {
            Ok(Some(student)) => r.status == Status::Success && r.body == Body::Student(student),
            Ok(None) => r.status == Status::NotFound && r.body is Empty,
            Err(e) => r.status == Status::InternalServerError && r.body == Body::Text(e),
        },
{
    match fetched {
        Ok(Some(student)) => Reply { status: Status::Success, body: Body::Student(student) },
        Ok(None) => empty_reply(Status::NotFound),
        Err(e) => storage_error(e),
    }
}

/// The answer to a read of a student's photo: 200 with the bytes and their content
/// type where the row has both, 404 where the row or either column is missing, or
/// 500 with the error behind a fixed prefix.
pub fn get_student_image_reply(fetched: Result<Option<ImageData>, String>) -> (r: Reply)
    ensures
        match fetched {
            Ok(Some(row)) => match (row.image_data, row.image_type) {
                (Some(data), Some(image_type)) => r.status == Status::Success && r.body
                    == (Body::Image { content_type: image_type, data }),
                _ => r.status == Status::NotFound && r.body is Empty,
            },
            Ok(None) => r.status == Status::NotFound && r.body is Empty,
            Err(e) => r.status == Status::InternalServerError && (match r.body {
                Body::Text(t) => t@ == "Query error in get_student_image: "@ + e@,
                _ => false,
            }),
        },
{
    match fetched {
        Ok(Some(row)) => match (row.image_data, row.image_type) {
            (Some(data), Some(image_type)) => Reply {
                status: Status::Success,
                body: Body::Image { content_type: image_type, data },
            },
            _ => empty_reply(Status::NotFound),
        },
        Ok(None) => empty_reply(Status::NotFound),
        Err(e) => storage_error(concat("Query error in get_student_image: ", e.as_str())),
    }
}

/// The answer to a form that was refused: 400 with the reason.
pub fn form_refused_reply(err: FormError) -> (r: Reply)
    ensures
        r.status == Status::BadRequest,
        match r.body {
            Body::Text(t) => t@ == form_error_text(err@),
            _ => false,
        },
{
    text_reply(Status::BadRequest, form_error_message(&err))
}

/// The answer to a statement that writes: 200 with no body, or 500 with the error.
pub fn write_reply(result: Result<(), String>) -> (r: Reply)
    ensures
        match result {
            Ok(_) => r.status == Status::Success && r.body is Empty,
            Err(e) => r.status == Status::InternalServerError && r.body == Body::Text(e),
        },
{
    match result {
        Ok(_) => empty_reply(Status::Success),
        Err(e) => storage_error(e),
    }
}

/// The answer to an update of a student: 200 with no body, or 500 with the error
/// behind a fixed prefix.
pub fn update_student_reply(result: Result<(), String>) -> (r: Reply)
    ensures
        match result {
            Ok(_) => r.status == Status::Success && r.body is Empty,
            Err(e) => r.status == Status::InternalServerError && (match r.body {
                Body::Text(t) => t@ == "Error update_student: "@ + e@,
                _ => false,
            }),
        },
{
    match result {
        Ok(_) => empty_reply(Status::Success),
        Err(e) => storage_error(concat("Error update_student: ", e.as_str())),
    }
}

/// Creating a student does not depend on the form's `studentId` field: two forms
/// that differ in it alone give the same statement.
pub proof fn insert_ignores_form_id(form: FormState, other_id: i32)
    ensures
        insert_student_sql(form) == insert_student_sql(FormState { id: other_id, ..form }),
{
}

/// Updating a student writes to the row named by the request, whatever the form's
/// `studentId` field says, and a form without a photo leaves the photo columns out.
pub proof fn update_targets_requested_row(id: i32, form: FormState, other_id: i32)
    ensures
        update_student_sql(id, form) == update_student_sql(id, FormState { id: other_id, ..form }),
        update_student_sql(id, form).params.last() == ParamView::Int(id),
        form.image_data is None ==> update_student_sql(id, form).params.len() == 4,
{
}

/// The decimal digit for a placeholder number from 1 to 9.
pub open spec fn placeholder_digit(n: int) -> char {
    (('0' as int) + n) as char
}

/// `WHERE id = $n`.
pub open spec fn where_id_clause(n: int) -> Seq<char> {
    "WHERE id = $"@ + seq![placeholder_digit(n)]
}

pub open spec fn ends_with(s: Seq<char>, suffix: Seq<char>) -> bool {
    suffix.len() <= s.len() && s.subrange(s.len() - suffix.len(), s.len() as int) == suffix
}

/// A new student's row takes its name, surname and group from the form, in the
/// columns `name`, `surname`, `group_id` bound to `$1`, `$2`, `$3`; a photo goes,
/// whole, to `image_data` (`$4`) with its type in `image_type` (`$5`).
pub proof fn insert_writes_form_fields(form: FormState)
    ensures
        ({
            let s = insert_student_sql(form);
            &&& s.params.len() >= 3
            &&& s.params[0] == ParamView::Text(form.name)
            &&& s.params[1] == ParamView::Text(form.surname)
            &&& s.params[2] == ParamView::Int(form.group_id)
            &&& match form.image_data {
                Some((data, image_type)) => {
                    &&& s.text == "INSERT INTO students (name, surname, group_id, image_data, image_type)
                 VALUES ($1, $2, $3, $4, $5)"@
                    &&& s.params.len() == 5
                    &&& s.params[3] == ParamView::Bytes(data)
                    &&& s.params[4] == ParamView::Text(image_type)
                },
                None => {
                    &&& s.text == "INSERT INTO students (name, surname, group_id)
                 VALUES ($1, $2, $3)"@
                    &&& s.params.len() == 3
                },
            }
        }),
{
}

/// An update writes the same values, in the same order, as creating a student from
/// the same form, and then names the row: the values do not depend on the row's id.
pub proof fn update_writes_what_insert_writes(id: i32, other_id: i32, form: FormState)
    ensures
        update_student_sql(id, form).params == insert_student_sql(form).params.push(
            ParamView::Int(id),
        ),
        update_student_sql(id, form).params.drop_last() == update_student_sql(
            other_id,
            form,
        ).params.drop_last(),
{
    assert(update_student_sql(id, form).params =~= insert_student_sql(form).params.push(
        ParamView::Int(id),
    ));
    assert(update_student_sql(other_id, form).params =~= insert_student_sql(form).params.push(
        ParamView::Int(other_id),
    ));
    assert(insert_student_sql(form).params.push(ParamView::Int(id)).drop_last()
        =~= insert_student_sql(form).params);
    assert(insert_student_sql(form).params.push(ParamView::Int(other_id)).drop_last()
        =~= insert_student_sql(form).params);
}

/// An update sets `name`, `surname`, `group_id` from `$1`, `$2`, `$3` (and the photo
/// columns from `$4`, `$5` where the form has a photo), bound to the form's values,
/// and its statement ends with `WHERE id = $n`, where `$n` is the last parameter,
/// the requested id.
pub proof fn update_sets_form_fields_on_requested_row(id: i32, form: FormState)
    ensures
        ({
            let s = update_student_sql(id, form);
            &&& 4 <= s.params.len() <= 6
            &&& s.params[0] == ParamView::Text(form.name)
            &&& s.params[1] == ParamView::Text(form.surname)
            &&& s.params[2] == ParamView::Int(form.group_id)
            &&& s.params.last() == ParamView::Int(id)
            &&& ends_with(s.text, where_id_clause(s.params.len() as int))
            &&& match form.image_data {
                Some((data, image_type)) => {
                    &&& s.text == "UPDATE students
                 SET name = $1, surname = $2, group_id = $3, image_data = $4, image_type = $5
                 WHERE id = $6"@
                    &&& s.params.len() == 6
                    &&& s.params[3] == ParamView::Bytes(data)
                    &&& s.params[4] == ParamView::Text(image_type)
                },
                None => {
                    &&& s.text == "UPDATE students
                 SET name = $1, surname = $2, group_id = $3
                 WHERE id = $4"@
                    &&& s.params.len() == 4
                },
            }
        }),
{
    reveal_strlit("WHERE id = $");
    reveal_strlit(
        "UPDATE students
                 SET name = $1, surname = $2, group_id = $3, image_data = $4, image_type = $5
                 WHERE id = $6",
    );
    reveal_strlit(
        "UPDATE students
                 SET name = $1, surname = $2, group_id = $3
                 WHERE id = $4",
    );
    let s = update_student_sql(id, form);
    let c = where_id_clause(s.params.len() as int);
    assert(s.text.subrange(s.text.len() - c.len(), s.text.len() as int) =~= c);
}

} // verus!
