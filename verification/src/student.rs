//! The student record, its mathematical value, and what it means to look a
//! record up by its identifier in a sequence of records.

use vstd::prelude::*;

verus! {

/// The mathematical value of a student record: each text field as the
/// sequence of its characters.
pub struct StudentView {
    pub id: Seq<char>,
    pub first_name: Seq<char>,
    pub last_name: Seq<char>,
    pub grade: u8,
}

/// A student record. The `id` identifies the record within a repository;
/// the other fields carry no constraint.
#[derive(Debug, PartialEq)]
pub struct Student {
    pub id: String,
    pub first_name: String,
    pub last_name: String,
    pub grade: u8,
}

impl View for Student {
    type V = StudentView;

    open spec fn view(&self) -> StudentView {
        StudentView {
            id: self.id@,
            first_name: self.first_name@,
            last_name: self.last_name@,
            grade: self.grade,
        }
    }
}

impl DeepView for Student {
    type V = StudentView;

    open spec fn deep_view(&self) -> StudentView {
        self@
    }
}

impl Clone for Student {
    fn clone(&self) -> (copy: Self)
        ensures
            copy == *self,
    {
        Student {
            id: self.id.clone(),
            first_name: self.first_name.clone(),
            last_name: self.last_name.clone(),
            grade: self.grade,
        }
    }
}

/// The record that `candidate` becomes once it is stored under `id`:
/// every field of the candidate but its identifier is kept.
pub open spec fn with_id(candidate: StudentView, id: Seq<char>) -> StudentView {
    StudentView {
        id,
        first_name: candidate.first_name,
        last_name: candidate.last_name,
        grade: candidate.grade,
    }
}

/// The two records that every repository starts with.
pub open spec fn seed_records() -> Seq<StudentView> {
    seq![
        StudentView { id: "123"@, first_name: "Taylor"@, last_name: "Testo"@, grade: 4 },
        StudentView { id: "test2"@, first_name: "Kerry"@, last_name: "Testine"@, grade: 5 },
    ]
}

/// Some record of `records` carries the identifier `id`.
pub open spec fn has_id(records: Seq<StudentView>, id: Seq<char>) -> bool {
    exists|i: int| 0 <= i < records.len() && (#[trigger] records[i]).id == id
}

/// No two records of `records` carry the same identifier.
pub open spec fn unique_ids(records: Seq<StudentView>) -> bool {
    forall|i: int, j: int|
        0 <= i < j < records.len() ==> (#[trigger] records[i]).id != (#[trigger] records[j]).id
}

/// Position `i` holds the first record of `records` that carries `id`.
pub open spec fn is_first_match(records: Seq<StudentView>, id: Seq<char>, i: int) -> bool {
    &&& 0 <= i < records.len()
    &&& records[i].id == id
    &&& forall|j: int| 0 <= j < i ==> (#[trigger] records[j]).id != id
}

/// The first record of `records` that carries `id`, if there is one.
pub open spec fn find_by_id(records: Seq<StudentView>, id: Seq<char>) -> Option<StudentView> {
    if has_id(records, id) {
        Some(records[choose|i: int| is_first_match(records, id, i)])
    } else {
        None
    }
}

/// Below any position that carries `id` there is a first one.
pub proof fn lemma_first_match_exists(records: Seq<StudentView>, id: Seq<char>, k: int)
    requires
        0 <= k < records.len(),
        records[k].id == id,
    ensures
        exists|i: int| 0 <= i <= k && is_first_match(records, id, i),
    decreases k,
{
    if exists|j: int| 0 <= j < k && (#[trigger] records[j]).id == id {
        let j = choose|j: int| 0 <= j < k && (#[trigger] records[j]).id == id;
        lemma_first_match_exists(records, id, j);
    } else {
        assert(is_first_match(records, id, k));
    }
}

/// A first match is the one that `find_by_id` yields.
pub proof fn lemma_find_first(records: Seq<StudentView>, id: Seq<char>, i: int)
    requires
        is_first_match(records, id, i),
    ensures
        find_by_id(records, id) == Some(records[i]),
{
    let k = choose|k: int| is_first_match(records, id, k);
    assert(is_first_match(records, id, k));
    if k < i {
        assert(records[k].id != id);
    } else if i < k {
        assert(records[i].id != id);
    }
}

/// The position in `students` of the first record whose identifier is `id`.
pub fn position_by_id(students: &Vec<Student>, id: &str) -> (found: Option<usize>)
    ensures
        match found {
            Some(i) => is_first_match(students.deep_view(), id@, i as int),
            None => !has_id(students.deep_view(), id@),
        },
{
    let wanted = id.to_owned();
    let mut i: usize = 0;
    while i < students.len()
        invariant
            i <= students.len(),
            wanted@ == id@,
            forall|j: int| 0 <= j < i ==> (#[trigger] students.deep_view()[j]).id != id@,
        decreases students.len() - i,
    {
        if students[i].id == wanted {
            return Some(i);
        }
        i += 1;
    }
    None
}

/// The two seed records, in order.
pub fn seed_students() -> (students: Vec<Student>)
    ensures
        students.deep_view() == seed_records(),
        unique_ids(students.deep_view()),
{
    let mut students: Vec<Student> = Vec::new();
    students.push(
        Student {
            id: "123".to_owned(),
            first_name: "Taylor".to_owned(),
            last_name: "Testo".to_owned(),
            grade: 4,
        },
    );
    students.push(
        Student {
            id: "test2".to_owned(),
            first_name: "Kerry".to_owned(),
            last_name: "Testine".to_owned(),
            grade: 5,
        },
    );
    proof {
        reveal_strlit("123");
        reveal_strlit("test2");
        assert(students.deep_view() =~= seed_records());
        assert("123"@.len() != "test2"@.len());
    }
    students
}

} // verus!
