use sms_db::error::Error;
use sms_db::helpers::create_update_dtos::MarkAttendanceDto;
use sms_db::models::academic::Class;
use sms_db::models::attendance::Attendance;
use sms_db::models::AttendanceStatus;
use sms_db::models::ClassLevel;
use sms_db::models::Gender;
use sms_db::models::Student;
use sms_db::models::StudentStatus;
use sms_db::queries::attendance::is_name_before;
use sms_db::queries::AttendanceQ;
use sms_db::queries::AttendanceSummaryQ;
use sms_db::values::RecordId;
use sms_db::values::Table;

fn rid(table: Table, key: &str) -> RecordId {
    RecordId { table, key: key.to_string() }
}

fn mark(student: &str, class: &str, date: i64, status: AttendanceStatus) -> MarkAttendanceDto {
    MarkAttendanceDto {
        student_id: rid(Table::Students, student),
        class_id: rid(Table::Classes, class),
        date,
        status,
        arrival_time: None,
        reason: None,
    }
}

fn student(key: &str, family: &str, class: Option<&str>) -> Student {
    Student {
        id: Some(rid(Table::Students, key)),
        school_id: rid(Table::Schools, "s1"),
        admission_number: key.to_string(),
        first_name: "A".to_string(),
        middle_name: None,
        last_name: family.to_string(),
        date_of_birth: 0,
        gender: Gender::Female,
        address: None,
        current_class_id: class.map(|c| rid(Table::Classes, c)),
        admission_date: 0,
        status: StudentStatus::Active,
        profile_photo_url: None,
        blood_group: None,
        genotype: None,
        medical_conditions: None,
        created_at: 0,
        updated_at: 0,
    }
}

fn class(key: &str, name: &str) -> Class {
    Class {
        id: Some(rid(Table::Classes, key)),
        school_id: rid(Table::Schools, "s1"),
        class_name: name.to_string(),
        class_level: ClassLevel::Primary,
        class_teacher_id: None,
        capacity: None,
        current_enrollment: 0,
        session_id: None,
        created_at: 0,
        updated_at: 0,
    }
}

fn register() -> Vec<Attendance> {
    let mut all = Vec::new();
    let marks = [
        ("st1", "c1", 10, AttendanceStatus::Present),
        ("st2", "c1", 10, AttendanceStatus::Absent),
        ("st3", "c1", 10, AttendanceStatus::Present),
        ("st4", "c1", 10, AttendanceStatus::Late),
        ("st1", "c1", 11, AttendanceStatus::Absent),
        ("st1", "c1", 12, AttendanceStatus::Absent),
        ("st5", "c2", 10, AttendanceStatus::Absent),
        ("st1", "c1", 13, AttendanceStatus::Excused),
        ("st9", "c1", 10, AttendanceStatus::Present),
    ];
    for (i, (s, c, d, status)) in marks.iter().enumerate() {
        AttendanceQ.mark(&mut all, mark(s, c, *d, *status), format!("a{}", i), 100).unwrap();
    }
    all
}

#[test]
fn attendance_is_marked_and_found() {
    let all = register();
    assert_eq!(all.len(), 9);
    assert_eq!(all[0].marked_at, 100);
    assert_eq!(all[0].id.as_ref().unwrap().table, Table::Attendance);
    let found = AttendanceQ.get_by_student_and_date(&all, "st1".to_string(), 11).unwrap();
    assert_eq!(found.status, AttendanceStatus::Absent);
    assert!(AttendanceQ.get_by_student_and_date(&all, "st1".to_string(), 14).is_none());
    assert!(AttendanceQ.get_by_student_and_date(&all, "st7".to_string(), 10).is_none());
    let mut all = all;
    let taken = AttendanceQ.mark(&mut all, mark("st1", "c1", 20, AttendanceStatus::Present), "a0".to_string(), 1);
    assert!(matches!(taken, Err(Error::Duplicate(ref k)) if k == "a0"));
    assert_eq!(all.len(), 9);
}

#[test]
fn a_class_on_a_day_comes_by_status_and_family_name() {
    let all = register();
    let students = vec![student("st1", "Okoro", None), student("st2", "Bello", None), student("st3", "Adeyemi", None), student("st4", "Musa", None)];
    let rows = AttendanceQ.get_by_class_and_date(&all, &students, "c1".to_string(), 10);
    let seen: Vec<(AttendanceStatus, Option<String>)> = rows.iter().map(|r| (r.0.status, r.1.as_ref().map(|s| s.last_name.clone()))).collect();
    assert_eq!(
        seen,
        vec![
            (AttendanceStatus::Absent, Some("Bello".to_string())),
            (AttendanceStatus::Late, Some("Musa".to_string())),
            (AttendanceStatus::Present, None),
            (AttendanceStatus::Present, Some("Adeyemi".to_string())),
            (AttendanceStatus::Present, Some("Okoro".to_string())),
        ]
    );
    assert!(is_name_before(&None, &Some("A".to_string())));
    assert!(!is_name_before(&Some("A".to_string()), &None));
    assert!(!is_name_before(&None, &None));
    assert!(is_name_before(&Some("A".to_string()), &Some("B".to_string())));
}

#[test]
fn the_history_of_a_student_comes_latest_first() {
    let all = register();
    let days: Vec<i64> = AttendanceQ.get_history(&all, "st1".to_string(), None).iter().map(|a| a.date).collect();
    assert_eq!(days, vec![13, 12, 11, 10]);
    let days: Vec<i64> = AttendanceQ.get_history(&all, "st1".to_string(), Some(2)).iter().map(|a| a.date).collect();
    assert_eq!(days, vec![13, 12]);
    let mut many = Vec::new();
    for d in 0..40 {
        AttendanceQ.mark(&mut many, mark("st1", "c1", d, AttendanceStatus::Present), format!("k{}", d), 0).unwrap();
    }
    let history = AttendanceQ.get_history(&many, "st1".to_string(), None);
    assert_eq!(history.len(), 30);
    assert_eq!(history[0].date, 39);
    assert_eq!(history[29].date, 10);
}

#[test]
fn attendance_is_counted_by_status() {
    let all = register();
    let counts = AttendanceQ.count_by_status(&all, "st1".to_string(), 10, 13);
    assert_eq!(counts, vec![(AttendanceStatus::Present, 1), (AttendanceStatus::Absent, 2), (AttendanceStatus::Excused, 1)]);
    let counts = AttendanceQ.count_by_status(&all, "st1".to_string(), 11, 12);
    assert_eq!(counts, vec![(AttendanceStatus::Absent, 2)]);
    assert!(AttendanceQ.count_by_status(&all, "st1".to_string(), 14, 20).is_empty());
    assert!(AttendanceQ.count_by_status(&all, "st1".to_string(), 13, 10).is_empty());
}

#[test]
fn the_absent_of_a_day_are_listed_and_restated() {
    let mut all = register();
    let students = vec![student("st2", "Bello", None)];
    let absent = AttendanceQ.get_absent_today(&all, &students, "c1".to_string(), 10);
    assert_eq!(absent.len(), 1);
    assert_eq!(absent[0].1.as_ref().unwrap().last_name, "Bello");
    assert_eq!(AttendanceQ.get_absent_today(&all, &students, "c1".to_string(), 11).len(), 1);
    assert!(AttendanceQ.get_absent_today(&all, &students, "c1".to_string(), 13).is_empty());
    let restated = AttendanceQ
        .update_status(&mut all, "a1".to_string(), AttendanceStatus::Excused, Some("clinic".to_string()), 200)
        .unwrap();
    assert_eq!(restated.status, AttendanceStatus::Excused);
    assert_eq!(restated.reason, Some("clinic".to_string()));
    assert_eq!(all[1].updated_at, 200);
    assert!(AttendanceQ.get_absent_today(&all, &students, "c1".to_string(), 10).is_empty());
    assert!(AttendanceQ.update_status(&mut all, "zz".to_string(), AttendanceStatus::Late, None, 1).is_none());
}

#[test]
fn a_summary_is_filed_once_and_replaced_after() {
    let mut summaries = Vec::new();
    let made = AttendanceSummaryQ
        .upsert(&mut summaries, "st1".to_string(), "t1".to_string(), 50, 5, 3, 2, 83_33, "m1".to_string(), 10)
        .unwrap()
        .unwrap();
    assert_eq!(made.id.as_ref().unwrap().key, "m1");
    assert_eq!((made.total_present, made.total_absent, made.total_late, made.total_excused), (50, 5, 3, 2));
    assert_eq!(made.attendance_percentage, 83_33);
    let again = AttendanceSummaryQ
        .upsert(&mut summaries, "st1".to_string(), "t1".to_string(), 51, 5, 3, 2, 83_60, "m2".to_string(), 11)
        .unwrap()
        .unwrap();
    assert_eq!(summaries.len(), 1);
    assert_eq!(again.id.as_ref().unwrap().key, "m1");
    assert_eq!(summaries[0].total_present, 51);
    assert_eq!(summaries[0].attendance_percentage, 83_60);
    assert_eq!(summaries[0].updated_at, 11);
    AttendanceSummaryQ.upsert(&mut summaries, "st1".to_string(), "t2".to_string(), 1, 0, 0, 0, 100_00, "m2".to_string(), 12).unwrap();
    assert_eq!(summaries.len(), 2);
    let taken = AttendanceSummaryQ.upsert(&mut summaries, "st2".to_string(), "t1".to_string(), 1, 0, 0, 0, 100_00, "m1".to_string(), 12);
    assert!(matches!(taken, Err(Error::Duplicate(ref k)) if k == "m1"));
    assert_eq!(summaries.len(), 2);
    assert_eq!(AttendanceSummaryQ.get(&summaries, "st1".to_string(), "t2".to_string()).unwrap().attendance_percentage, 100_00);
    assert!(AttendanceSummaryQ.get(&summaries, "st3".to_string(), "t1".to_string()).is_none());
}

#[test]
fn classes_are_ranked_by_mean_attendance() {
    let classes = vec![class("c1", "Primary 1"), class("c2", "Primary 2"), class("c3", "Primary 3"), class("c4", "Empty")];
    let students = vec![
        student("st1", "A", Some("c1")),
        student("st2", "B", Some("c1")),
        student("st3", "C", Some("c2")),
        student("st4", "D", Some("c3")),
        student("st5", "E", None),
    ];
    let mut summaries = Vec::new();
    for (i, (s, t, pct)) in [("st1", "t1", 80_00), ("st2", "t1", 90_01), ("st3", "t1", 97_50), ("st4", "t1", 85_00), ("st5", "t1", 100_00), ("st3", "t2", 1_00)]
        .iter()
        .enumerate()
    {
        AttendanceSummaryQ.upsert(&mut summaries, s.to_string(), t.to_string(), 0, 0, 0, 0, *pct, format!("m{}", i), 0).unwrap();
    }
    let rows = AttendanceSummaryQ.get_rate_by_class(&summaries, &students, &classes, "t1".to_string());
    assert_eq!(
        rows,
        vec![("Primary 2".to_string(), 97_50), ("Primary 1".to_string(), 85_00), ("Primary 3".to_string(), 85_00)]
    );
    assert!(AttendanceSummaryQ.get_rate_by_class(&summaries, &students, &classes, "t3".to_string()).is_empty());
}
