//! The reply that the service gives to each of its three requests: a status
//! and a body, decided from what the repository returns.

use crate::student::{find_by_id, has_id, with_id, Student, StudentView};
use crate::{is_random_id, MockRepo, StudentError};
use vstd::prelude::*;

verus! {

/// The status of a reply that carries what was asked for.
pub const STATUS_OK: u16 = 200;

/// The status of a reply to a request for a student that is not there.
pub const STATUS_NOT_FOUND: u16 = 404;

/// The status of a reply to a request that the service failed to carry out.
pub const STATUS_INTERNAL_ERROR: u16 = 500;

/// The body of a reply: students to encode as JSON, or plain text.
#[derive(Debug, PartialEq)]
pub enum Body {
    /// A JSON array of students.
    Students(Vec<Student>),
    /// A JSON object of one student.
    Student(Student),
    /// Plain text.
    Text(String),
}

/// A reply: the status and the body.
#[derive(Debug, PartialEq)]
pub struct Reply {
    pub status: u16,
    pub body: Body,
}

/// The mathematical value of a body.
pub enum BodyView {
    Students(Seq<StudentView>),
    Student(StudentView),
    Text(Seq<char>),
}

/// The mathematical value of a reply.
pub struct ReplyView {
    pub status: u16,
    pub body: BodyView,
}

impl View for Body {
    type V = BodyView;

    open spec fn view(&self) -> BodyView {
        match self {
            Body::Students(all) => BodyView::Students(all.deep_view()),
            Body::Student(student) => BodyView::Student(student@),
            Body::Text(text) => BodyView::Text(text@),
        }
    }
}

impl View for Reply {
    type V = ReplyView;

    open spec fn view(&self) -> ReplyView {
        ReplyView { status: self.status, body: self.body@ }
    }
}

/// The reply to a request for all students: they are sent, whatever their
/// number.
pub open spec fn list_reply(records: Seq<StudentView>) -> ReplyView {
    ReplyView { status: 200, body: BodyView::Students(records) }
}

/// The reply to a request for one student: the student if it was found, a
/// note of its absence if not.
pub open spec fn lookup_reply(found: Option<StudentView>) -> ReplyView {
    match found {
        Some(student) => ReplyView { status: 200, body: BodyView::Student(student) },
        None => ReplyView { status: 404, body: BodyView::Text("Student not found."@) },
    }
}

/// The reply to a request to store a student: the stored record if it was
/// found again, a note of the failure if not.
pub open spec fn add_reply(stored: Option<StudentView>) -> ReplyView {
    match stored {
        Some(student) => ReplyView { status: 200, body: BodyView::Student(student) },
        None => ReplyView { status: 500, body: BodyView::Text("Problem adding student"@) },
    }
}

/// Turns the outcome of a lookup into the reply to a request for one
/// student.
pub fn reply_to_lookup(found: Option<Student>) -> (reply: Reply)
    ensures
        reply@ == lookup_reply(found.deep_view()),
{
    match found {
        Some(student) => Reply { status: STATUS_OK, body: Body::Student(student) },
        None => Reply {
            status: STATUS_NOT_FOUND,
            body: Body::Text("Student not found.".to_owned()),
        },
    }
}

/// Turns the outcome of storing a student into the reply to the request
/// that asked for it.
pub fn reply_to_add(stored: Option<Student>) -> (reply: Reply)
    ensures
        reply@ == add_reply(stored.deep_view()),
{
    match stored {
        Some(student) => Reply { status: STATUS_OK, body: Body::Student(student) },
        None => Reply {
            status: STATUS_INTERNAL_ERROR,
            body: Body::Text(StudentError::AddError.message()),
        },
    }
}

/// The reply to a request for all students.
pub fn get_students(repository: &MockRepo) -> (reply: Reply)
    ensures
        reply@ == list_reply(repository@),
{
    Reply { status: STATUS_OK, body: Body::Students(repository.get_students()) }
}

/// The reply to a request for the student whose identifier is `id`.
pub fn get_student_by_id(id: &str, repository: &MockRepo) -> (reply: Reply)
    ensures
        reply@ == lookup_reply(find_by_id(repository@, id@)),
{
    reply_to_lookup(repository.get_student_by_id(id))
}

/// Stores `student` under a fresh random identifier and replies with what a
/// lookup of that identifier finds.
///
/// The reply always has status 200. It carries the stored record unless an
/// older record already has the identifier that was drawn.
pub fn add_student(student: Student, repository: &mut MockRepo) -> (reply: Reply)
    ensures
        is_random_id(final(repository)@.last().id),
        final(repository)@ == old(repository)@.push(
            with_id(student@, final(repository)@.last().id),
        ),
        reply@ == add_reply(find_by_id(final(repository)@, final(repository)@.last().id)),
        reply@.status == 200,
        !has_id(old(repository)@, final(repository)@.last().id) ==> reply@.body
            == BodyView::Student(final(repository)@.last()),
{
    reply_to_add(repository.add_student(student))
}

} // verus!
