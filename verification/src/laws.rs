//! What holds of the repository's operations taken together.

use crate::handlers::{add_reply, lookup_reply, BodyView, Reply};
use crate::student::{
    find_by_id, has_id, is_first_match, lemma_find_first, lemma_first_match_exists, unique_ids,
    with_id, Student, StudentView,
};
use crate::{is_random_id, MockRepo};
use vstd::prelude::*;

verus! {

/// The records of a repository that held `records` and then stored each of
/// `candidates` in turn, the one at position `k` under `ids[k]`.
pub open spec fn after_adds(
    records: Seq<StudentView>,
    candidates: Seq<StudentView>,
    ids: Seq<Seq<char>>,
) -> Seq<StudentView>
    recommends
        candidates.len() == ids.len(),
    decreases candidates.len(),
{
    if candidates.len() == 0 || candidates.len() != ids.len() {
        records
    } else {
        after_adds(records, candidates.drop_last(), ids.drop_last()).push(
            with_id(candidates.last(), ids.last()),
        )
    }
}

/// Storing one student makes the repository one record longer and leaves
/// every record that was there in its place, with its identifier and
/// fields.
pub proof fn law_add_extends(records: Seq<StudentView>, candidate: StudentView, id: Seq<char>)
    ensures
        records.push(with_id(candidate, id)).len() == records.len() + 1,
        forall|i: int|
            0 <= i < records.len() ==> #[trigger] records.push(with_id(candidate, id))[i]
                == records[i],
        records.push(with_id(candidate, id)).last() == with_id(candidate, id),
{
}

/// Storing any number of students in turn makes the repository longer by
/// that number, leaves every record that was there in its place, and puts
/// the new records behind them in the order in which they were stored.
pub proof fn law_adds_extend(
    records: Seq<StudentView>,
    candidates: Seq<StudentView>,
    ids: Seq<Seq<char>>,
)
    requires
        candidates.len() == ids.len(),
    ensures
        after_adds(records, candidates, ids).len() == records.len() + candidates.len(),
        forall|i: int|
            0 <= i < records.len() ==> #[trigger] after_adds(records, candidates, ids)[i]
                == records[i],
        forall|k: int|
            0 <= k < candidates.len() ==> #[trigger] after_adds(
                records,
                candidates,
                ids,
            )[records.len() + k] == with_id(candidates[k], ids[k]),
    decreases candidates.len(),
{
    if candidates.len() > 0 {
        law_adds_extend(records, candidates.drop_last(), ids.drop_last());
    }
}

/// A lookup in a repository without repeated identifiers finds the one
/// record that carries the identifier, or finds nothing because no record
/// carries it.
pub proof fn law_lookup_at_most_one(records: Seq<StudentView>, id: Seq<char>)
    requires
        unique_ids(records),
    ensures
        match find_by_id(records, id) {
            Some(student) => exists|i: int|
                {
                    &&& 0 <= i < records.len()
                    &&& #[trigger] records[i] == student
                    &&& student.id == id
                    &&& forall|j: int|
                        0 <= j < records.len() && j != i ==> (#[trigger] records[j]).id != id
                },
            None => forall|j: int| 0 <= j < records.len() ==> (#[trigger] records[j]).id != id,
        },
{
    if has_id(records, id) {
        let k = choose|k: int| 0 <= k < records.len() && (#[trigger] records[k]).id == id;
        lemma_first_match_exists(records, id, k);
        let i = choose|i: int| 0 <= i <= k && is_first_match(records, id, i);
        lemma_find_first(records, id, i);
        assert forall|j: int| 0 <= j < records.len() && j != i implies (#[trigger] records[j]).id
            != id by {
            if j > i {
                assert(records[i].id != records[j].id);
            }
        }
    }
}

/// A student stored under an identifier that no record carried is found
/// again under that identifier, with the first name, last name and grade
/// that were handed in.
pub proof fn law_add_then_get(records: Seq<StudentView>, candidate: StudentView, id: Seq<char>)
    requires
        !has_id(records, id),
    ensures
        find_by_id(records.push(with_id(candidate, id)), id) == Some(with_id(candidate, id)),
        with_id(candidate, id).first_name == candidate.first_name,
        with_id(candidate, id).last_name == candidate.last_name,
        with_id(candidate, id).grade == candidate.grade,
        add_reply(find_by_id(records.push(with_id(candidate, id)), id)) == lookup_reply(
            find_by_id(records.push(with_id(candidate, id)), id),
        ),
        lookup_reply(find_by_id(records.push(with_id(candidate, id)), id)).status == 200,
        lookup_reply(find_by_id(records.push(with_id(candidate, id)), id)).body
            == BodyView::Student(with_id(candidate, id)),
{
    let after = records.push(with_id(candidate, id));
    let last = records.len() as int;
    assert(after[last].id == id);
    assert forall|j: int| 0 <= j < last implies (#[trigger] after[j]).id != id by {
        assert(records[j].id != id);
    }
    assert(is_first_match(after, id, last));
    lemma_find_first(after, id, last);
}

/// A random identifier is not empty, and differs from every text that does
/// not have its shape.
pub proof fn law_random_id_shape(id: Seq<char>, other: Seq<char>)
    requires
        is_random_id(id),
    ensures
        id.len() > 0,
        !is_random_id(other) ==> id != other,
{
}

/// Storing a student changes no lookup that found a record before, nor any
/// lookup of another identifier than the new one.
pub proof fn law_add_keeps_lookups(
    records: Seq<StudentView>,
    candidate: StudentView,
    id: Seq<char>,
    wanted: Seq<char>,
)
    requires
        has_id(records, wanted) || wanted != id,
    ensures
        find_by_id(records.push(with_id(candidate, id)), wanted) == find_by_id(records, wanted),
{
    let after = records.push(with_id(candidate, id));
    if has_id(records, wanted) {
        let k = choose|k: int| 0 <= k < records.len() && (#[trigger] records[k]).id == wanted;
        lemma_first_match_exists(records, wanted, k);
        let i = choose|i: int| 0 <= i <= k && is_first_match(records, wanted, i);
        lemma_find_first(records, wanted, i);
        assert forall|j: int| 0 <= j < i implies (#[trigger] after[j]).id != wanted by {
            assert(records[j].id != wanted);
        }
        assert(after[i] == records[i]);
        assert(is_first_match(after, wanted, i));
        lemma_find_first(after, wanted, i);
    } else {
        assert forall|j: int| 0 <= j < after.len() implies (#[trigger] after[j]).id
            != wanted by {
            if j < records.len() {
                assert(records[j].id != wanted);
            }
        }
    }
}

/// Storing a student under an identifier that no record carried keeps the
/// identifiers of the repository distinct.
pub proof fn law_add_keeps_unique(records: Seq<StudentView>, candidate: StudentView, id: Seq<char>)
    requires
        unique_ids(records),
        !has_id(records, id),
    ensures
        unique_ids(records.push(with_id(candidate, id))),
{
    let after = records.push(with_id(candidate, id));
    assert forall|i: int, j: int| 0 <= i < j < after.len() implies (#[trigger] after[i]).id != (
    #[trigger] after[j]).id by {
        if j < records.len() {
            assert(records[i].id != records[j].id);
        } else {
            assert(records[i].id != id);
        }
    }
}

/// Two listings of one repository hold the same records, and two lookups of
/// one identifier in it find the same.
pub proof fn law_reads_repeat(
    repo: MockRepo,
    id: &str,
    first_list: Vec<Student>,
    second_list: Vec<Student>,
    first_found: Option<Student>,
    second_found: Option<Student>,
)
    requires
        call_ensures(MockRepo::get_students, (&repo,), first_list),
        call_ensures(MockRepo::get_students, (&repo,), second_list),
        call_ensures(MockRepo::get_student_by_id, (&repo, id), first_found),
        call_ensures(MockRepo::get_student_by_id, (&repo, id), second_found),
    ensures
        first_list.deep_view() == second_list.deep_view(),
        first_found.deep_view() == second_found.deep_view(),
{
}

/// Two replies to a request for all students of one repository, or for one
/// identifier in it, are the same.
pub proof fn law_replies_repeat(
    repo: MockRepo,
    id: &str,
    first_list: Reply,
    second_list: Reply,
    first_found: Reply,
    second_found: Reply,
)
    requires
        call_ensures(crate::handlers::get_students, (&repo,), first_list),
        call_ensures(crate::handlers::get_students, (&repo,), second_list),
        call_ensures(crate::handlers::get_student_by_id, (id, &repo), first_found),
        call_ensures(crate::handlers::get_student_by_id, (id, &repo), second_found),
    ensures
        first_list@ == second_list@,
        first_found@ == second_found@,
{
}

} // verus!
