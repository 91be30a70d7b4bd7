use student_service::{gen_id, MockRepo, Student, StudentError};

fn candidate(first_name: &str, last_name: &str, grade: u8) -> Student {
    Student {
        id: String::new(),
        first_name: first_name.to_string(),
        last_name: last_name.to_string(),
        grade,
    }
}

fn has_random_shape(id: &str) -> bool {
    let chars: Vec<char> = id.chars().collect();
    chars.len() == 36
        && chars.iter().enumerate().all(|(i, c)| {
            if i == 8 || i == 13 || i == 18 || i == 23 {
                *c == '-'
            } else {
                matches!(*c, '0'..='9' | 'a'..='f')
            }
        })
        && chars[14] == '4'
}

#[test]
fn lib_new_works() {
    let repo: MockRepo = MockRepo::new();

    assert_eq!(repo.students[0].id, "123".to_string());
}

#[test]
fn lib_get_students_works() {
    let repo = MockRepo::new();
    let actual = repo.get_students();
    assert!(actual.len() == 2);
}

#[test]
fn lib_get_student_by_id_works() {
    let repo = MockRepo::new();
    let actual = repo.get_student_by_id("123");
    assert_eq!(actual.as_ref(), Some(&repo.students[0]));
}

#[test]
fn fresh_repository_lists_the_two_seed_records() {
    let repo = MockRepo::new();
    let all = repo.get_students();
    assert_eq!(
        all,
        vec![
            Student {
                id: "123".to_string(),
                first_name: "Taylor".to_string(),
                last_name: "Testo".to_string(),
                grade: 4,
            },
            Student {
                id: "test2".to_string(),
                first_name: "Kerry".to_string(),
                last_name: "Testine".to_string(),
                grade: 5,
            },
        ]
    );
}

#[test]
fn fresh_repository_finds_the_first_seed_record() {
    let repo = MockRepo::new();
    assert_eq!(
        repo.get_student_by_id("123"),
        Some(Student {
            id: "123".to_string(),
            first_name: "Taylor".to_string(),
            last_name: "Testo".to_string(),
            grade: 4,
        })
    );
}

#[test]
fn fresh_repository_finds_the_second_seed_record() {
    let repo = MockRepo::new();
    let found = repo.get_student_by_id("test2").unwrap();
    assert_eq!(found.first_name, "Kerry");
    assert_eq!(found.last_name, "Testine");
    assert_eq!(found.grade, 5);
}

#[test]
fn unknown_identifier_is_not_found() {
    let repo = MockRepo::new();
    assert_eq!(repo.get_student_by_id("nonexistent"), None);
    assert_eq!(repo.get_student_by_id(""), None);
    assert_eq!(repo.get_student_by_id("1234"), None);
    assert_eq!(repo.get_student_by_id("12"), None);
}

#[test]
fn snapshot_does_not_follow_later_adds() {
    let mut repo = MockRepo::new();
    let before = repo.get_students();
    repo.add_student(candidate("Ada", "Lovelace", 6));
    assert_eq!(before.len(), 2);
    assert_eq!(repo.get_students().len(), 3);
}

#[test]
fn add_grows_the_list_by_one_and_keeps_the_rest() {
    let mut repo = MockRepo::new();
    let mut expected = repo.get_students();
    for grade in 0..20u8 {
        let stored = repo.add_student(candidate("N", "M", grade)).unwrap();
        expected.push(stored);
        assert_eq!(repo.get_students(), expected);
    }
    assert_eq!(repo.get_students().len(), 22);
}

#[test]
fn add_assigns_a_fresh_identifier() {
    let mut repo = MockRepo::new();
    let mut submitted = candidate("Ada", "Lovelace", 6);
    submitted.id = "123".to_string();
    let stored = repo.add_student(submitted).unwrap();
    assert_ne!(stored.id, "123");
    assert!(has_random_shape(&stored.id));
    assert_eq!(stored.first_name, "Ada");
    assert_eq!(stored.last_name, "Lovelace");
    assert_eq!(stored.grade, 6);
    assert_eq!(repo.get_students().len(), 3);
    assert_eq!(repo.get_student_by_id(&stored.id), Some(stored));
    assert_eq!(repo.get_student_by_id("123").unwrap().first_name, "Taylor");
}

#[test]
fn add_accepts_every_grade() {
    let mut repo = MockRepo::new();
    assert_eq!(repo.add_student(candidate("", "", 0)).unwrap().grade, 0);
    assert_eq!(repo.add_student(candidate("", "", 255)).unwrap().grade, 255);
}

#[test]
fn add_with_id_stores_under_the_given_identifier() {
    let mut repo = MockRepo::new();
    let mut submitted = candidate("Ada", "Lovelace", 6);
    submitted.id = "mine".to_string();
    let stored = repo.add_student_with_id(submitted, "given".to_string());
    assert_eq!(
        stored,
        Some(Student {
            id: "given".to_string(),
            first_name: "Ada".to_string(),
            last_name: "Lovelace".to_string(),
            grade: 6,
        })
    );
    assert_eq!(repo.students.len(), 3);
    assert_eq!(repo.students[2].id, "given");
    assert_eq!(repo.get_student_by_id("mine"), None);
}

#[test]
fn add_with_a_taken_identifier_finds_the_older_record() {
    let mut repo = MockRepo::new();
    let stored = repo.add_student_with_id(candidate("Ada", "Lovelace", 6), "test2".to_string());
    assert_eq!(stored.unwrap().first_name, "Kerry");
    assert_eq!(repo.students.len(), 3);
    assert_eq!(repo.students[2].first_name, "Ada");
    assert_eq!(repo.students[2].id, "test2");
}

#[test]
fn reads_repeat() {
    let mut repo = MockRepo::new();
    repo.add_student(candidate("Ada", "Lovelace", 6));
    assert_eq!(repo.get_students(), repo.get_students());
    assert_eq!(repo.get_student_by_id("123"), repo.get_student_by_id("123"));
    assert_eq!(repo.get_student_by_id("none"), repo.get_student_by_id("none"));
}

#[test]
fn two_adds_in_either_order_both_succeed() {
    for swap in [false, true] {
        let mut repo = MockRepo::new();
        let size = repo.get_students().len();
        let (first, second) = if swap {
            (candidate("Grace", "Hopper", 7), candidate("Ada", "Lovelace", 6))
        } else {
            (candidate("Ada", "Lovelace", 6), candidate("Grace", "Hopper", 7))
        };
        let a = repo.add_student(first).unwrap();
        let b = repo.add_student(second).unwrap();
        assert_ne!(a.id, b.id);
        let all = repo.get_students();
        assert_eq!(all.len(), size + 2);
        assert!(all.contains(&a));
        assert!(all.contains(&b));
    }
}

#[test]
fn gen_id_has_the_random_shape() {
    for _ in 0..50 {
        let id = gen_id();
        assert!(has_random_shape(&id), "{}", id);
    }
}

#[test]
fn gen_id_differs_between_calls() {
    assert_ne!(gen_id(), gen_id());
}

#[test]
fn add_error_is_printable() {
    assert_eq!(format!("{:?}", StudentError::AddError), "AddError");
}

#[test]
fn clone_keeps_every_field() {
    let student = Student {
        id: "a".to_string(),
        first_name: "b".to_string(),
        last_name: "c".to_string(),
        grade: 9,
    };
    assert_eq!(student.clone(), student);
}

#[test]
fn add_error_has_its_message() {
    assert_eq!(StudentError::AddError.message(), "Problem adding student");
}

#[test]
fn lookup_finds_the_one_record_with_the_identifier() {
    let mut repo = MockRepo::new();
    let stored = repo.add_student(candidate("Ada", "Lovelace", 6)).unwrap();
    for id in ["123", "test2", stored.id.as_str()] {
        let matches = repo.get_students().into_iter().filter(|s| s.id == id).count();
        assert_eq!(matches, 1);
        assert_eq!(repo.get_student_by_id(id).unwrap().id, id);
    }
    let matches = repo.get_students().into_iter().filter(|s| s.id == "absent").count();
    assert_eq!(matches, 0);
    assert_eq!(repo.get_student_by_id("absent"), None);
}
