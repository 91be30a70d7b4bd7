//! A repository that is only read: it holds the seed records and lends
//! them out.

use crate::student::{
    find_by_id, lemma_find_first, position_by_id, seed_records, seed_students, unique_ids,
    Student, StudentView,
};
use vstd::prelude::*;

verus! {

/// The read-only repository: the students it holds, in order.
pub struct MockRepo {
    pub students: Vec<Student>,
}

impl View for MockRepo {
    type V = Seq<StudentView>;

    open spec fn view(&self) -> Seq<StudentView> {
        self.students.deep_view()
    }
}

impl MockRepo {
    /// No two students of the repository share an identifier.
    pub open spec fn wf(&self) -> bool {
        unique_ids(self@)
    }

    /// A repository that holds the two seed records.
    pub fn new() -> (repo: Self)
        ensures
            repo@ == seed_records(),
            repo.wf(),
    {
        MockRepo { students: seed_students() }
    }

    /// Every student, in order, on loan from the repository.
    pub fn get_students(&self) -> (all: &Vec<Student>)
        ensures
            *all == self.students,
            all.deep_view() == self@,
    {
        &self.students
    }

    /// The first student whose identifier is `id`, if there is one, on loan
    /// from the repository.
    pub fn get_student_by_id(&self, id: &str) -> (found: Option<&Student>)
        ensures
            found.deep_view() == find_by_id(self@, id@),
            found matches Some(student) ==> self.students@.contains(*student),
    {
        match position_by_id(&self.students, id) {
            Some(i) => {
                proof {
                    lemma_find_first(self@, id@, i as int);
                }
                Some(&self.students[i])
            },
            None => None,
        }
    }
}

} // verus!
