use student_service::mock_repo::MockRepo;
use student_service::student::{position_by_id, Student};

#[test]
fn mock_repo_new_works() {
    let repo: MockRepo = MockRepo::new();

    assert_eq!(repo.students[0].id, "123".to_string());
}

#[test]
fn mock_repo_get_students_works() {
    let repo = MockRepo::new();
    let actual = repo.get_students();
    assert!(actual.len() == 2);
}

#[test]
fn mock_repo_get_student_by_id_works() {
    let repo = MockRepo::new();
    let actual = repo.get_student_by_id("123");
    assert_eq!(actual, Some(&repo.students[0]));
}

#[test]
fn read_only_repository_holds_the_seed_records() {
    let repo = MockRepo::new();
    let all = repo.get_students();
    assert_eq!(all[0].first_name, "Taylor");
    assert_eq!(all[0].last_name, "Testo");
    assert_eq!(all[0].grade, 4);
    assert_eq!(all[1].id, "test2");
    assert_eq!(all[1].first_name, "Kerry");
    assert_eq!(all[1].last_name, "Testine");
    assert_eq!(all[1].grade, 5);
}

#[test]
fn read_only_repository_misses_unknown_identifiers() {
    let repo = MockRepo::new();
    assert_eq!(repo.get_student_by_id("nonexistent"), None);
    assert_eq!(repo.get_student_by_id("test"), None);
}

#[test]
fn read_only_lookup_lends_the_stored_record() {
    let repo = MockRepo::new();
    let found = repo.get_student_by_id("test2").unwrap();
    assert!(std::ptr::eq(found, &repo.students[1]));
}

#[test]
fn position_is_that_of_the_first_match() {
    let record = |id: &str, grade: u8| Student {
        id: id.to_string(),
        first_name: String::new(),
        last_name: String::new(),
        grade,
    };
    let students = vec![record("a", 1), record("b", 2), record("a", 3), record("c", 4)];
    assert_eq!(position_by_id(&students, "a"), Some(0));
    assert_eq!(position_by_id(&students, "b"), Some(1));
    assert_eq!(position_by_id(&students, "c"), Some(3));
    assert_eq!(position_by_id(&students, "d"), None);
    assert_eq!(position_by_id(&Vec::new(), "a"), None);
}

#[test]
fn seed_students_are_the_two_fixed_records() {
    let seed = student_service::student::seed_students();
    assert_eq!(seed.len(), 2);
    assert_eq!(seed[0].id, "123");
    assert_eq!(seed[1].id, "test2");
    assert_eq!(seed, *MockRepo::new().get_students());
}
