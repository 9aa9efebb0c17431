use sms_db::error::Error;
use sms_db::models::academic::AcademicSession;
use sms_db::models::academic::Class;
use sms_db::models::academic::ClassSubject;
use sms_db::models::academic::Subject;
use sms_db::models::academic::Term;
use sms_db::models::ClassLevel;
use sms_db::models::SubjectType;
use sms_db::models::User;
use sms_db::models::UserStatus;
use sms_db::models::UserType;
use sms_db::queries::AcademicSessionQ;
use sms_db::queries::ClassQ;
use sms_db::queries::ClassSubjectQ;
use sms_db::queries::SubjectQ;
use sms_db::queries::TermQ;
use sms_db::values::RecordId;
use sms_db::values::Table;

fn rid(table: Table, key: &str) -> RecordId {
    RecordId { table, key: key.to_string() }
}

fn session(school: &str, name: &str, start: i64, current: bool) -> AcademicSession {
    AcademicSession {
        id: None,
        school_id: rid(Table::Schools, school),
        session_name: name.to_string(),
        start_date: start,
        end_date: start + 100,
        is_current: current,
        created_at: 0,
    }
}

fn term(session: &str, number: i32, current: bool) -> Term {
    Term {
        id: None,
        session_id: rid(Table::AcademicSessions, session),
        term_number: number,
        term_name: None,
        start_date: 0,
        end_date: 1,
        is_current: current,
        created_at: 0,
    }
}

fn class(school: &str, name: &str, level: ClassLevel) -> Class {
    Class {
        id: None,
        school_id: rid(Table::Schools, school),
        class_name: name.to_string(),
        class_level: level,
        class_teacher_id: None,
        capacity: Some(30),
        current_enrollment: 0,
        session_id: None,
        created_at: 0,
        updated_at: 0,
    }
}

fn sessions() -> Vec<AcademicSession> {
    let mut all = Vec::new();
    for (k, s) in [
        ("y1", session("s1", "2023/24", 100, true)),
        ("y2", session("s1", "2024/25", 200, true)),
        ("y3", session("s2", "2024/25", 200, true)),
        ("y4", session("s1", "2025/26", 300, false)),
    ] {
        AcademicSessionQ.create(&mut all, s, k.to_string()).unwrap();
    }
    all
}

fn current_keys(all: &Vec<AcademicSession>, school: &str) -> Vec<String> {
    all.iter()
        .filter(|s| s.school_id.key == school && s.is_current)
        .map(|s| s.id.as_ref().unwrap().key.clone())
        .collect()
}

#[test]
fn making_a_session_current_leaves_exactly_one() {
    let mut all = sessions();
    assert_eq!(current_keys(&all, "s1").len(), 2);
    AcademicSessionQ.set_current(&mut all, "s1".to_string(), "y4".to_string()).unwrap();
    assert_eq!(current_keys(&all, "s1"), vec!["y4"]);
    assert_eq!(current_keys(&all, "s2"), vec!["y3"]);
    AcademicSessionQ.set_current(&mut all, "s1".to_string(), "y4".to_string()).unwrap();
    assert_eq!(current_keys(&all, "s1"), vec!["y4"]);
    AcademicSessionQ.set_current(&mut all, "s1".to_string(), "y1".to_string()).unwrap();
    assert_eq!(current_keys(&all, "s1"), vec!["y1"]);
    assert_eq!(AcademicSessionQ.get_current(&all, "s1".to_string()).unwrap().session_name, "2023/24");
}

#[test]
fn a_school_with_no_current_session_gets_one() {
    let mut all = sessions();
    for s in all.iter_mut() {
        s.is_current = false;
    }
    assert!(AcademicSessionQ.get_current(&all, "s1".to_string()).is_none());
    AcademicSessionQ.set_current(&mut all, "s1".to_string(), "y2".to_string()).unwrap();
    assert_eq!(current_keys(&all, "s1"), vec!["y2"]);
    assert!(current_keys(&all, "s2").is_empty());
}

#[test]
fn a_session_of_another_school_cannot_be_made_current() {
    let mut all = sessions();
    let r = AcademicSessionQ.set_current(&mut all, "s1".to_string(), "y3".to_string());
    assert!(matches!(r, Err(Error::NotFound(ref k)) if k == "y3"));
    assert_eq!(current_keys(&all, "s1"), vec!["y1", "y2"]);
    assert_eq!(current_keys(&all, "s2"), vec!["y3"]);
    let r = AcademicSessionQ.set_current(&mut all, "s1".to_string(), "nope".to_string());
    assert!(matches!(r, Err(Error::NotFound(ref k)) if k == "nope"));
    assert_eq!(current_keys(&all, "s1"), vec!["y1", "y2"]);
}

#[test]
fn sessions_come_latest_first() {
    let all = sessions();
    let names: Vec<String> = AcademicSessionQ
        .get_all_by_school(&all, "s1".to_string())
        .iter()
        .map(|s| s.session_name.clone())
        .collect();
    assert_eq!(names, vec!["2025/26", "2024/25", "2023/24"]);
}

#[test]
fn making_a_term_current_leaves_exactly_one() {
    let mut terms = Vec::new();
    for (k, t) in [("t1", term("y1", 2, true)), ("t2", term("y1", 1, true)), ("t3", term("y2", 1, true)), ("t4", term("y1", 3, false))] {
        TermQ.create(&mut terms, t, k.to_string()).unwrap();
    }
    let numbers: Vec<i32> = TermQ.get_by_session(&terms, "y1".to_string()).iter().map(|t| t.term_number).collect();
    assert_eq!(numbers, vec![1, 2, 3]);
    TermQ.set_current(&mut terms, "y1".to_string(), "t4".to_string()).unwrap();
    let current: Vec<bool> = terms.iter().map(|t| t.is_current).collect();
    assert_eq!(current, vec![false, false, true, true]);
    assert_eq!(TermQ.get_current(&terms, "y1".to_string()).unwrap().term_number, 3);
    assert_eq!(TermQ.get_current(&terms, "y2".to_string()).unwrap().term_number, 1);
    assert!(matches!(
        TermQ.set_current(&mut terms, "y2".to_string(), "t4".to_string()),
        Err(Error::NotFound(ref k)) if k == "t4"
    ));
    let current: Vec<bool> = terms.iter().map(|t| t.is_current).collect();
    assert_eq!(current, vec![false, false, true, true]);
}

#[test]
fn classes_come_by_level_and_name() {
    let mut classes = Vec::new();
    for (k, c) in [
        ("c1", class("s1", "SS 1", ClassLevel::SeniorSecondary)),
        ("c2", class("s1", "Primary 2", ClassLevel::Primary)),
        ("c3", class("s1", "Nursery 1", ClassLevel::Nursery)),
        ("c4", class("s1", "JSS 1", ClassLevel::JuniorSecondary)),
        ("c5", class("s1", "Primary 1", ClassLevel::Primary)),
        ("c6", class("s2", "Primary 1", ClassLevel::Primary)),
    ] {
        ClassQ.create(&mut classes, c, k.to_string()).unwrap();
    }
    let names: Vec<String> = ClassQ.get_by_school(&classes, "s1".to_string()).iter().map(|c| c.class_name.clone()).collect();
    assert_eq!(names, vec!["JSS 1", "Nursery 1", "Primary 1", "Primary 2", "SS 1"]);
}

#[test]
fn a_class_gets_a_teacher_and_students() {
    let mut classes = Vec::new();
    ClassQ.create(&mut classes, class("s1", "Primary 1", ClassLevel::Primary), "c1".to_string()).unwrap();
    ClassQ.create(&mut classes, class("s1", "Primary 2", ClassLevel::Primary), "c2".to_string()).unwrap();
    let c = ClassQ.update_teacher(&mut classes, "c2".to_string(), "u7".to_string(), 5).unwrap();
    assert_eq!(c.class_teacher_id.as_ref().unwrap().key, "u7");
    assert_eq!(c.class_teacher_id.as_ref().unwrap().table, Table::Users);
    let led = ClassQ.get_by_class_teacher(&classes, "u7".to_string());
    assert_eq!(led.len(), 1);
    assert_eq!(led[0].class_name, "Primary 2");
    assert!(ClassQ.get_by_class_teacher(&classes, "u8".to_string()).is_empty());
    let c = ClassQ.increment_enrollment(&mut classes, "c2".to_string(), 6).unwrap().unwrap();
    assert_eq!(c.current_enrollment, 1);
    ClassQ.increment_enrollment(&mut classes, "c2".to_string(), 7).unwrap();
    assert_eq!(classes[1].current_enrollment, 2);
    assert_eq!(classes[1].updated_at, 7);
    assert_eq!(classes[0].current_enrollment, 0);
    assert!(ClassQ.increment_enrollment(&mut classes, "c9".to_string(), 7).unwrap().is_none());
    classes[0].current_enrollment = i32::MAX;
    let r = ClassQ.increment_enrollment(&mut classes, "c1".to_string(), 8);
    assert!(matches!(r, Err(Error::SurrealDb(ref why)) if why == "number out of range"));
    assert_eq!(classes[0].current_enrollment, i32::MAX);
    assert_eq!(classes[0].updated_at, 0);
}

#[test]
fn subjects_come_by_name_and_are_taught_in_classes() {
    let mut subjects = Vec::new();
    for (k, name) in [("j1", "Mathematics"), ("j2", "English"), ("j3", "Yoruba")] {
        let s = Subject {
            id: None,
            school_id: rid(Table::Schools, "s1"),
            subject_name: name.to_string(),
            subject_code: None,
            subject_type: SubjectType::Core,
            created_at: 0,
        };
        SubjectQ.create(&mut subjects, s, k.to_string()).unwrap();
    }
    let names: Vec<String> = SubjectQ.get_by_school(&subjects, "s1".to_string()).iter().map(|s| s.subject_name.clone()).collect();
    assert_eq!(names, vec!["English", "Mathematics", "Yoruba"]);
    assert!(SubjectQ.get_by_school(&subjects, "s2".to_string()).is_empty());

    let teacher = User {
        id: Some(rid(Table::Users, "u1")),
        school_id: rid(Table::Schools, "s1"),
        user_type: UserType::Teacher,
        first_name: "T".to_string(),
        last_name: "One".to_string(),
        email: None,
        phone_number: None,
        password_hash: String::new(),
        status: UserStatus::Active,
        last_login: None,
        email_verified: false,
        phone_verified: false,
        created_at: 0,
        updated_at: 0,
    };
    let users = vec![teacher];
    let mut classes = Vec::new();
    ClassQ.create(&mut classes, class("s1", "Primary 1", ClassLevel::Primary), "c1".to_string()).unwrap();
    let mut edges = Vec::new();
    for (k, c, j, t) in [("e1", "c1", "j1", Some("u1")), ("e2", "c2", "j1", Some("u1")), ("e3", "c1", "j9", None)] {
        let e = ClassSubject {
            id: None,
            class_id: rid(Table::Classes, c),
            subject_id: rid(Table::Subjects, j),
            teacher_id: t.map(|t| rid(Table::Users, t)),
            created_at: 0,
        };
        ClassSubjectQ.assign(&mut edges, e, k.to_string()).unwrap();
    }
    let in_class = ClassSubjectQ.get_by_class(&edges, &subjects, &users, "c1".to_string());
    assert_eq!(in_class.len(), 2);
    assert_eq!(in_class[0].1.as_ref().unwrap().subject_name, "Mathematics");
    assert_eq!(in_class[0].2.as_ref().unwrap().last_name, "One");
    assert!(in_class[1].1.is_none() && in_class[1].2.is_none());
    let taught = ClassSubjectQ.get_by_teacher(&edges, &classes, &subjects, "u1".to_string());
    assert_eq!(taught.len(), 2);
    assert_eq!(taught[0].1.as_ref().unwrap().class_name, "Primary 1");
    assert!(taught[1].1.is_none());
    let e = ClassSubjectQ.update_teacher(&mut edges, "e3".to_string(), "u1".to_string()).unwrap();
    assert_eq!(e.teacher_id.unwrap().key, "u1");
    assert_eq!(ClassSubjectQ.get_by_teacher(&edges, &classes, &subjects, "u1".to_string()).len(), 3);
    assert!(ClassSubjectQ.update_teacher(&mut edges, "e9".to_string(), "u1".to_string()).is_none());
}
