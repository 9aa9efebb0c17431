use sms_db::helpers::create_update_dtos::EnterScoreDto;
use sms_db::models::academic::Subject;
use sms_db::models::assessments_nd_grading::Assessment;
use sms_db::models::assessments_nd_grading::GradingScheme;
use sms_db::models::assessments_nd_grading::ReportCard;
use sms_db::models::assessments_nd_grading::ReportCardScore;
use sms_db::models::assessments_nd_grading::StudentScore;
use sms_db::models::AssessmentType;
use sms_db::models::Gender;
use sms_db::models::Student;
use sms_db::models::StudentStatus;
use sms_db::models::SubjectType;
use sms_db::queries::AssessmentQ;
use sms_db::queries::GradingSchemeQ;
use sms_db::queries::ReportCardQ;
use sms_db::queries::StudentScoreQ;
use sms_db::values::is_earlier;
use sms_db::values::is_higher;
use sms_db::values::RecordId;
use sms_db::values::Table;

fn rid(table: Table, key: &str) -> RecordId {
    RecordId { table, key: key.to_string() }
}

fn range(school: &str, grade: &str, min: i64, max: i64) -> GradingScheme {
    GradingScheme {
        id: None,
        school_id: rid(Table::Schools, school),
        scheme_name: None,
        min_score: min,
        max_score: max,
        grade: grade.to_string(),
        grade_point: 0,
        remark: None,
        created_at: 0,
    }
}

fn grading() -> Vec<GradingScheme> {
    let mut schemes = Vec::new();
    for (k, g) in [
        ("g1", range("s1", "C", 50_00, 59_99)),
        ("g2", range("s1", "A", 70_00, 100_00)),
        ("g3", range("s2", "A", 80_00, 100_00)),
        ("g4", range("s1", "B", 60_00, 69_99)),
        ("g5", range("s1", "F", 0, 49_99)),
    ] {
        GradingSchemeQ.create(&mut schemes, g, k.to_string()).unwrap();
    }
    schemes
}

fn assessment(key: &str, subject: &str, term: &str, kind: AssessmentType, date: Option<i64>) -> Assessment {
    Assessment {
        id: Some(rid(Table::Assessments, key)),
        school_id: rid(Table::Schools, "s1"),
        class_id: rid(Table::Classes, "c1"),
        subject_id: rid(Table::Subjects, subject),
        term_id: rid(Table::Terms, term),
        assessment_type: kind,
        assessment_name: None,
        max_score: 100_00,
        assessment_date: date,
        created_by: None,
        created_at: 0,
        updated_at: 0,
    }
}

fn score(assessment: &str, student: &str, marks: Option<i64>) -> StudentScore {
    StudentScore {
        id: None,
        assessment_id: rid(Table::Assessments, assessment),
        student_id: rid(Table::Students, student),
        score_obtained: marks,
        remarks: None,
        entered_by: None,
        entered_at: 0,
        updated_at: 0,
        verified: false,
        verified_by: None,
        verified_at: None,
    }
}

fn card(student: &str, term: &str, average: Option<i64>, published: bool) -> ReportCard {
    ReportCard {
        id: None,
        student_id: rid(Table::Students, student),
        class_id: rid(Table::Classes, "c1"),
        term_id: rid(Table::Terms, term),
        total_score: None,
        average_percentage: average,
        class_position: None,
        total_students_in_class: None,
        class_average: None,
        attendance_present: None,
        attendance_absent: None,
        attendance_late: None,
        times_school_opened: None,
        teacher_comment: None,
        principal_comment: None,
        next_term_begins: None,
        generated_by: None,
        generated_at: 0,
        published,
        published_at: None,
        pdf_url: None,
        created_at: 0,
    }
}

fn student(key: &str) -> Student {
    Student {
        id: Some(rid(Table::Students, key)),
        school_id: rid(Table::Schools, "s1"),
        admission_number: key.to_string(),
        first_name: key.to_string(),
        middle_name: None,
        last_name: "X".to_string(),
        date_of_birth: 0,
        gender: Gender::Male,
        address: None,
        current_class_id: None,
        admission_date: 0,
        status: StudentStatus::Active,
        profile_photo_url: None,
        blood_group: None,
        genotype: None,
        medical_conditions: None,
        created_at: 0,
        updated_at: 0,
    }
}

fn file_two_more(scores: &mut Vec<StudentScore>) {
    let mut a = score("a1", "st2", Some(40_00));
    a.id = Some(rid(Table::StudentScores, "k2"));
    scores.push(a);
    let mut b = score("a2", "st1", Some(10_00));
    b.id = Some(rid(Table::StudentScores, "k3"));
    scores.push(b);
}

#[test]
fn a_score_at_the_lower_bound_gets_the_range() {
    let schemes = grading();
    assert_eq!(GradingSchemeQ.get_grade_for_score(&schemes, "s1".to_string(), 70_00).unwrap().grade, "A");
    assert_eq!(GradingSchemeQ.get_grade_for_score(&schemes, "s1".to_string(), 60_00).unwrap().grade, "B");
    assert_eq!(GradingSchemeQ.get_grade_for_score(&schemes, "s1".to_string(), 50_00).unwrap().grade, "C");
    assert_eq!(GradingSchemeQ.get_grade_for_score(&schemes, "s1".to_string(), 0).unwrap().grade, "F");
}

#[test]
fn a_score_at_the_upper_bound_gets_the_range() {
    let schemes = grading();
    assert_eq!(GradingSchemeQ.get_grade_for_score(&schemes, "s1".to_string(), 100_00).unwrap().grade, "A");
    assert_eq!(GradingSchemeQ.get_grade_for_score(&schemes, "s1".to_string(), 69_99).unwrap().grade, "B");
    assert_eq!(GradingSchemeQ.get_grade_for_score(&schemes, "s1".to_string(), 59_99).unwrap().grade, "C");
    assert_eq!(GradingSchemeQ.get_grade_for_score(&schemes, "s1".to_string(), 49_99).unwrap().grade, "F");
}

#[test]
fn a_score_outside_every_range_gets_no_grade() {
    let schemes = grading();
    assert!(GradingSchemeQ.get_grade_for_score(&schemes, "s1".to_string(), 100_01).is_none());
    assert!(GradingSchemeQ.get_grade_for_score(&schemes, "s1".to_string(), -1).is_none());
    assert!(GradingSchemeQ.get_grade_for_score(&schemes, "s3".to_string(), 75_00).is_none());
    assert!(GradingSchemeQ.get_grade_for_score(&schemes, "s2".to_string(), 75_00).is_none());
    assert_eq!(GradingSchemeQ.get_grade_for_score(&schemes, "s2".to_string(), 80_00).unwrap().school_id.key, "s2");
}

#[test]
fn of_two_ranges_that_hold_a_score_the_first_in_the_table_grades_it() {
    let mut schemes = grading();
    GradingSchemeQ.create(&mut schemes, range("s1", "A+", 90_00, 100_00), "g6".to_string()).unwrap();
    assert_eq!(GradingSchemeQ.get_grade_for_score(&schemes, "s1".to_string(), 95_00).unwrap().grade, "A");
    let table: Vec<String> = GradingSchemeQ.get_by_school(&schemes, "s1".to_string()).iter().map(|g| g.grade.clone()).collect();
    assert_eq!(table, vec!["A+", "A", "B", "C", "F"]);
}

#[test]
fn assessments_come_by_kind() {
    let mut all = Vec::new();
    for (k, a) in [
        ("a1", assessment("x", "j1", "t1", AssessmentType::Exam, None)),
        ("a2", assessment("x", "j1", "t1", AssessmentType::Ca1, None)),
        ("a3", assessment("x", "j2", "t1", AssessmentType::Test, None)),
        ("a4", assessment("x", "j1", "t1", AssessmentType::Assignment, None)),
        ("a5", assessment("x", "j1", "t2", AssessmentType::Ca2, None)),
    ] {
        let mut a = a;
        a.id = None;
        AssessmentQ.create(&mut all, a, k.to_string()).unwrap();
    }
    let kinds: Vec<AssessmentType> = AssessmentQ
        .get_by_class_subject_term(&all, "c1".to_string(), "j1".to_string(), "t1".to_string())
        .iter()
        .map(|a| a.assessment_type)
        .collect();
    assert_eq!(kinds, vec![AssessmentType::Assignment, AssessmentType::Ca1, AssessmentType::Exam]);
    assert_eq!(AssessmentQ.get_by_class_term(&all, "c1".to_string(), "t1".to_string()).len(), 4);
    assert!(AssessmentQ.get_by_class_term(&all, "c2".to_string(), "t1".to_string()).is_empty());
}

#[test]
fn scores_are_entered_changed_and_verified() {
    let mut scores = Vec::new();
    let dto = EnterScoreDto {
        assessment_id: rid(Table::Assessments, "a1"),
        student_id: rid(Table::Students, "st1"),
        score_obtained: 67_50,
        remarks: Some("good".to_string()),
    };
    let made = StudentScoreQ.enter(&mut scores, dto, "k1".to_string(), 12).unwrap().unwrap();
    assert_eq!(made.score_obtained, Some(67_50));
    assert_eq!(made.entered_at, 12);
    assert!(!made.verified);
    file_two_more(&mut scores);
    let changed = StudentScoreQ.update(&mut scores, "a1".to_string(), "st1".to_string(), 70_00, 13).unwrap();
    assert_eq!(changed.score_obtained, Some(70_00));
    assert_eq!(scores[0].updated_at, 13);
    assert_eq!(scores[1].score_obtained, Some(40_00));
    assert!(StudentScoreQ.update(&mut scores, "a1".to_string(), "st9".to_string(), 1, 13).is_none());
    let verified = StudentScoreQ.verify_assessment_scores(&mut scores, "a1".to_string(), "admin".to_string(), 14);
    assert_eq!(verified.len(), 2);
    assert!(scores[0].verified && scores[1].verified && !scores[2].verified);
    assert_eq!(scores[0].updated_at, 14);
    assert_eq!(scores[1].updated_at, 14);
    assert_eq!(scores[2].updated_at, 0);
    assert_eq!(scores[0].verified_by.as_ref().unwrap().key, "admin");
    assert_eq!(scores[1].verified_at, Some(14));
}

#[test]
fn verifying_scores_stamps_them_as_changed() {
    let mut scores = Vec::new();
    for (k, a, s, at) in [("k1", "a1", "st1", 3), ("k2", "a2", "st1", 4), ("k3", "a1", "st2", 14), ("k4", "a1", "st3", 99)] {
        let mut one = score(a, s, Some(50_00));
        one.id = Some(rid(Table::StudentScores, k));
        one.entered_at = at;
        one.updated_at = at;
        scores.push(one);
    }
    scores[3].verified = true;
    scores[3].verified_at = Some(99);
    let verified = StudentScoreQ.verify_assessment_scores(&mut scores, "a1".to_string(), "admin".to_string(), 14);
    let keys: Vec<String> = verified.iter().map(|s| s.id.as_ref().unwrap().key.clone()).collect();
    assert_eq!(keys, vec!["k1", "k3", "k4"]);
    for s in &verified {
        assert!(s.verified);
        assert_eq!(s.verified_by.as_ref().unwrap().table, Table::Users);
        assert_eq!(s.verified_by.as_ref().unwrap().key, "admin");
        assert_eq!(s.verified_at, Some(14));
        assert_eq!(s.updated_at, 14);
        assert_eq!(s.score_obtained, Some(50_00));
    }
    let stamps: Vec<i64> = scores.iter().map(|s| s.updated_at).collect();
    assert_eq!(stamps, vec![14, 4, 14, 14]);
    let entered: Vec<i64> = scores.iter().map(|s| s.entered_at).collect();
    assert_eq!(entered, vec![3, 4, 14, 99]);
    assert!(!scores[1].verified);
    assert!(scores[1].verified_by.is_none() && scores[1].verified_at.is_none());
    assert!(StudentScoreQ.verify_assessment_scores(&mut scores, "a9".to_string(), "admin".to_string(), 20).is_empty());
    let stamps: Vec<i64> = scores.iter().map(|s| s.updated_at).collect();
    assert_eq!(stamps, vec![14, 4, 14, 14]);
}

#[test]
fn the_class_average_is_the_mean_of_the_scores_that_are_there() {
    let scores = vec![
        score("a1", "st1", Some(70_00)),
        score("a1", "st2", Some(55_50)),
        score("a1", "st3", None),
        score("a2", "st1", Some(1_00)),
        score("a1", "st4", Some(60_01)),
    ];
    assert_eq!(StudentScoreQ.get_class_average(&scores, "a1".to_string()), Some(61_83));
    assert_eq!(StudentScoreQ.get_class_average(&scores, "a2".to_string()), Some(1_00));
    assert_eq!(StudentScoreQ.get_class_average(&scores, "a3".to_string()), None);
    let unmarked = vec![score("a1", "st1", None)];
    assert_eq!(StudentScoreQ.get_class_average(&unmarked, "a1".to_string()), None);
    let extreme = vec![score("a1", "st1", Some(i64::MAX)), score("a1", "st2", Some(i64::MAX))];
    assert_eq!(StudentScoreQ.get_class_average(&extreme, "a1".to_string()), Some(i64::MAX));
}

#[test]
fn the_scores_of_a_subject_come_by_the_date_of_the_assessment() {
    let assessments = vec![
        assessment("a1", "j1", "t1", AssessmentType::Exam, Some(30)),
        assessment("a2", "j1", "t1", AssessmentType::Ca1, Some(10)),
        assessment("a3", "j2", "t1", AssessmentType::Ca1, Some(5)),
        assessment("a4", "j1", "t2", AssessmentType::Ca1, None),
    ];
    let scores = vec![
        score("a1", "st1", Some(1)),
        score("a2", "st1", Some(2)),
        score("a3", "st1", Some(3)),
        score("a4", "st1", Some(4)),
        score("a2", "st2", Some(5)),
        score("a9", "st1", Some(6)),
    ];
    let found = StudentScoreQ.get_by_student_subject(&scores, &assessments, "st1".to_string(), "j1".to_string());
    let marks: Vec<Option<i64>> = found.iter().map(|p| p.0.score_obtained).collect();
    assert_eq!(marks, vec![Some(4), Some(2), Some(1)]);
    assert_eq!(found[1].1.as_ref().unwrap().assessment_date, Some(10));
    assert!(is_earlier(None, Some(0)));
    assert!(!is_earlier(Some(0), None));
    assert!(!is_earlier(None, None));
    assert!(is_earlier(Some(1), Some(2)));
    assert!(!is_earlier(Some(2), Some(2)));
}

#[test]
fn a_term_is_totalled_subject_by_subject() {
    let assessments = vec![
        assessment("a1", "j1", "t1", AssessmentType::Exam, None),
        assessment("a2", "j1", "t1", AssessmentType::Ca1, None),
        assessment("a3", "j2", "t1", AssessmentType::Ca1, None),
        assessment("a4", "j1", "t2", AssessmentType::Ca1, None),
    ];
    let mut subjects = Vec::new();
    for k in ["j2", "j1", "j3"] {
        subjects.push(Subject {
            id: Some(rid(Table::Subjects, k)),
            school_id: rid(Table::Schools, "s1"),
            subject_name: k.to_string(),
            subject_code: None,
            subject_type: SubjectType::Core,
            created_at: 0,
        });
    }
    let scores = vec![
        score("a1", "st1", Some(60_00)),
        score("a2", "st1", Some(15_50)),
        score("a3", "st1", Some(9_00)),
        score("a4", "st1", Some(1_00)),
        score("a1", "st2", Some(50_00)),
        score("a3", "st1", None),
    ];
    let totals = StudentScoreQ.get_total_by_subject(&scores, &assessments, &subjects, "st1".to_string(), "t1".to_string());
    let rows: Vec<(String, i128)> = totals.iter().map(|r| (r.0.key.clone(), r.1)).collect();
    assert_eq!(rows, vec![("j2".to_string(), 9_00), ("j1".to_string(), 75_50)]);
}

#[test]
fn report_cards_are_published_and_ranked() {
    let mut cards = Vec::new();
    for (k, c) in [
        ("r1", card("st1", "t1", Some(71_00), true)),
        ("r2", card("st2", "t1", Some(88_50), true)),
        ("r3", card("st3", "t1", Some(99_00), false)),
        ("r4", card("st4", "t1", None, true)),
        ("r5", card("st5", "t2", Some(90_00), true)),
        ("r6", card("st6", "t1", Some(88_50), true)),
    ] {
        ReportCardQ.create(&mut cards, c, k.to_string()).unwrap();
    }
    let students = vec![student("st1"), student("st2"), student("st6")];
    let top = ReportCardQ.get_top_performers(&cards, &students, "t1".to_string(), Some(3));
    let rows: Vec<(Option<String>, Option<i64>)> = top.iter().map(|r| (r.0.as_ref().map(|s| s.first_name.clone()), r.1)).collect();
    assert_eq!(
        rows,
        vec![(Some("st2".to_string()), Some(88_50)), (Some("st6".to_string()), Some(88_50)), (Some("st1".to_string()), Some(71_00))]
    );
    let all = ReportCardQ.get_top_performers(&cards, &students, "t1".to_string(), None);
    assert_eq!(all.len(), 4);
    assert!(all[3].0.is_none() && all[3].1.is_none());
    let released = ReportCardQ.publish(&mut cards, "r3".to_string(), 44).unwrap();
    assert!(released.published);
    assert_eq!(released.published_at, Some(44));
    let top = ReportCardQ.get_top_performers(&cards, &students, "t1".to_string(), Some(1));
    assert_eq!(top[0].1, Some(99_00));
    assert_eq!(ReportCardQ.get_published_by_term(&cards, "t1".to_string()).len(), 5);
    assert!(ReportCardQ.publish(&mut cards, "r9".to_string(), 44).is_none());
    let printed = ReportCardQ.set_pdf_url(&mut cards, "r1".to_string(), "https://x/r1.pdf".to_string()).unwrap();
    assert_eq!(printed.pdf_url, Some("https://x/r1.pdf".to_string()));
    assert!(is_higher(Some(1), None));
    assert!(!is_higher(None, Some(1)));
    assert!(is_higher(Some(2), Some(1)));
    assert!(!is_higher(Some(1), Some(1)));
}

#[test]
fn a_report_card_comes_with_what_it_refers_to() {
    let mut cards = Vec::new();
    ReportCardQ.create(&mut cards, card("st1", "t1", None, false), "r1".to_string()).unwrap();
    let mut lines = Vec::new();
    for (k, r) in [("l1", "r1"), ("l2", "r2"), ("l3", "r1")] {
        let line = ReportCardScore {
            id: None,
            report_card_id: rid(Table::ReportCards, r),
            subject_id: rid(Table::Subjects, "j1"),
            ca_score: None,
            exam_score: None,
            total_score: None,
            grade: Some(k.to_string()),
            subject_position: None,
            subject_high_score: None,
            subject_low_score: None,
            subject_average: None,
            remarks: None,
        };
        ReportCardQ.add_score(&mut lines, line, k.to_string()).unwrap();
    }
    let (c, found) = ReportCardQ.get_with_scores(&cards, &lines, "r1".to_string()).unwrap();
    assert_eq!(c.student_id.key, "st1");
    let grades: Vec<Option<String>> = found.iter().map(|l| l.grade.clone()).collect();
    assert_eq!(grades, vec![Some("l1".to_string()), Some("l3".to_string())]);
    assert!(ReportCardQ.get_with_scores(&cards, &lines, "r2".to_string()).is_none());
    let students = vec![student("st1")];
    let (_, s, class, term) = ReportCardQ
        .get_by_student_term(&cards, &students, &Vec::new(), &Vec::new(), "st1".to_string(), "t1".to_string())
        .unwrap();
    assert_eq!(s.unwrap().first_name, "st1");
    assert!(class.is_none() && term.is_none());
    assert!(ReportCardQ
        .get_by_student_term(&cards, &students, &Vec::new(), &Vec::new(), "st1".to_string(), "t2".to_string())
        .is_none());
}
