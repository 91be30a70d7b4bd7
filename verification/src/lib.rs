//! An in-memory repository of student records, and the replies that a
//! service gives to requests against it.
//!
//! The repository is a plain value: whoever shares it between threads keeps
//! it behind a lock and holds the lock for one call at a time.

use vstd::prelude::*;

pub mod handlers;
pub mod laws;
pub mod mock_repo;
pub mod student;

pub use crate::student::Student;
use crate::laws::{law_add_keeps_unique, law_add_then_get};
use crate::student::{
    find_by_id, has_id, lemma_find_first, position_by_id, seed_records, seed_students,
    unique_ids, with_id, StudentView,
};

verus! {

/// What can go wrong when a record is stored.
#[derive(Debug)]
pub enum StudentError {
    /// The record could not be found again after it was stored.
    AddError,
}

impl StudentError {
    /// The text that tells a client of the error.
    pub fn message(&self) -> (text: String)
        ensures
            text@ == "Problem adding student"@,
    {
        match self {
            StudentError::AddError => "Problem adding student".to_owned(),
        }
    }
}

/// `c` is one of `0`-`9` or `a`-`f`.
pub open spec fn is_lower_hex(c: char) -> bool {
    ('0' <= c && c <= '9') || ('a' <= c && c <= 'f')
}

/// `text` has the shape of a random identifier: 36 characters in five
/// groups of lower-case hexadecimal digits, set apart by hyphens, the third
/// group starting with `4`.
pub open spec fn is_random_id(text: Seq<char>) -> bool {
    &&& text.len() == 36
    &&& forall|i: int|
        0 <= i < 36 ==> if i == 8 || i == 13 || i == 18 || i == 23 {
            #[trigger] text[i] == '-'
        } else {
            is_lower_hex(text[i])
        }
    &&& text[14] == '4'
}

/// A fresh random identifier.
///
/// Calls `uuid::Uuid::new_v4` and renders the result with its `Display`
/// impl. The contract claims only the shape of the text, which is the
/// hyphenated lower-case form of a version 4 identifier; it says nothing of
/// which identifier comes back, nor that two calls differ. The call stops
/// the process if the operating system cannot supply random bytes.
#[verifier::external_body]
pub fn gen_id() -> (id: String)
    ensures
        is_random_id(id@),
{
    uuid::Uuid::new_v4().to_string()
}

/// The repository: the students it holds, in the order in which they were
/// stored.
pub struct MockRepo {
    pub students: Vec<Student>,
}

impl View for MockRepo {
    type V = Seq<StudentView>;

    open spec fn view(&self) -> Seq<StudentView> {
        self.students.deep_view()
    }
}

impl MockRepo {
    /// No two students of the repository share an identifier.
    pub open spec fn wf(&self) -> bool {
        unique_ids(self@)
    }

    /// A repository that holds the two seed records.
    pub fn new() -> (repo: Self)
        ensures
            repo@ == seed_records(),
            repo.wf(),
    {
        MockRepo { students: seed_students() }
    }

    /// A copy of every student, in the order in which they were stored.
    pub fn get_students(&self) -> (all: Vec<Student>)
        ensures
            all.deep_view() == self@,
    {
        let mut all: Vec<Student> = Vec::new();
        let mut i: usize = 0;
        while i < self.students.len()
            invariant
                i <= self.students.len(),
                all.len() == i,
                forall|j: int| 0 <= j < i ==> all[j] == self.students[j],
            decreases self.students.len() - i,
        {
            all.push(self.students[i].clone());
            i += 1;
        }
        assert(all.deep_view() =~= self@);
        all
    }

    /// A copy of the first student whose identifier is `id`, if there is
    /// one.
    pub fn get_student_by_id(&self, id: &str) -> (found: Option<Student>)
        ensures
            found.deep_view() == find_by_id(self@, id@),
    {
        match position_by_id(&self.students, id) {
            Some(i) => {
                proof {
                    lemma_find_first(self@, id@, i as int);
                }
                Some(self.students[i].clone())
            },
            None => None,
        }
    }

    /// Stores `student` under the identifier `id`, whatever identifier it
    /// came with, and looks the identifier up again.
    ///
    /// The lookup always finds a record. It is the stored one unless an
    /// older record already carries `id`, in which case that one comes
    /// first.
    pub fn add_student_with_id(&mut self, student: Student, id: String) -> (stored: Option<
        Student,
    >)
        ensures
            final(self)@ == old(self)@.push(with_id(student@, id@)),
            stored.deep_view() == find_by_id(final(self)@, id@),
            stored is Some,
            !has_id(old(self)@, id@) ==> stored.deep_view() == Some(with_id(student@, id@)),
            old(self).wf() && !has_id(old(self)@, id@) ==> final(self).wf(),
    {
        let ghost before = self@;
        let ghost record = with_id(student@, id@);
        let mut student = student;
        student.id = id;
        let key = student.id.clone();
        self.students.push(student);
        proof {
            assert(self@ =~= before.push(record));
            assert(self@.last().id == id@);
            if !has_id(before, record.id) {
                law_add_then_get(before, student@, record.id);
                if unique_ids(before) {
                    law_add_keeps_unique(before, student@, record.id);
                }
            }
        }
        self.get_student_by_id(key.as_str())
    }

    /// Stores `student` under a fresh random identifier, whatever
    /// identifier it came with, and looks that identifier up again.
    ///
    /// The new record is the last one of the repository; the records that
    /// were there before keep their places and their fields.
    pub fn add_student(&mut self, student: Student) -> (stored: Option<Student>)
        ensures
            final(self)@.len() == old(self)@.len() + 1,
            is_random_id(final(self)@.last().id),
            final(self)@ == old(self)@.push(with_id(student@, final(self)@.last().id)),
            stored.deep_view() == find_by_id(final(self)@, final(self)@.last().id),
            stored is Some,
            !has_id(old(self)@, final(self)@.last().id) ==> stored.deep_view() == Some(
                final(self)@.last(),
            ),
            old(self).wf() && !has_id(old(self)@, final(self)@.last().id) ==> final(self).wf(),
    {
        let id = gen_id();
        self.add_student_with_id(student, id)
    }
}

} // verus!
