use sms_db::error::Error;
use sms_db::models::academic::Class;
use sms_db::models::fee_management::Invoice;
use sms_db::models::settings_and_configuration::ReportCardTemplate;
use sms_db::models::settings_and_configuration::SchoolSetting;
use sms_db::models::system_and_audit::ActivityLog;
use sms_db::models::ActionType;
use sms_db::models::ClassLevel;
use sms_db::models::Gender;
use sms_db::models::InvoiceStatus;
use sms_db::models::SettingType;
use sms_db::models::Student;
use sms_db::models::StudentStatus;
use sms_db::models::User;
use sms_db::models::UserStatus;
use sms_db::models::UserType;
use sms_db::queries::ActivityLogQ;
use sms_db::queries::AnalyticsQ;
use sms_db::queries::ReportCardTemplateQ;
use sms_db::queries::SchoolSettingQ;
use sms_db::values::RecordId;
use sms_db::values::Table;

fn rid(table: Table, key: &str) -> RecordId {
    RecordId { table, key: key.to_string() }
}

fn invoice(key: &str, school: &str, term: &str, total: i64, paid: i64) -> Invoice {
    Invoice {
        id: Some(rid(Table::Invoices, key)),
        student_id: rid(Table::Students, "st1"),
        school_id: rid(Table::Schools, school),
        term_id: rid(Table::Terms, term),
        invoice_number: key.to_string(),
        total_amount: total,
        amount_paid: paid,
        balance: total - paid,
        discount_amount: 0,
        discount_reason: None,
        due_date: 0,
        status: InvoiceStatus::Unpaid,
        generated_by: None,
        generated_at: 0,
        created_at: 0,
        updated_at: 0,
    }
}

fn student(key: &str, school: &str, status: StudentStatus) -> Student {
    Student {
        id: Some(rid(Table::Students, key)),
        school_id: rid(Table::Schools, school),
        admission_number: key.to_string(),
        first_name: "A".to_string(),
        middle_name: None,
        last_name: "B".to_string(),
        date_of_birth: 0,
        gender: Gender::Male,
        address: None,
        current_class_id: None,
        admission_date: 0,
        status,
        profile_photo_url: None,
        blood_group: None,
        genotype: None,
        medical_conditions: None,
        created_at: 0,
        updated_at: 0,
    }
}

fn user(key: &str, school: &str, role: UserType, status: UserStatus) -> User {
    User {
        id: Some(rid(Table::Users, key)),
        school_id: rid(Table::Schools, school),
        user_type: role,
        first_name: "A".to_string(),
        last_name: "B".to_string(),
        email: None,
        phone_number: None,
        password_hash: String::new(),
        status,
        last_login: None,
        email_verified: false,
        phone_verified: false,
        created_at: 0,
        updated_at: 0,
    }
}

fn class(key: &str, school: &str) -> Class {
    Class {
        id: Some(rid(Table::Classes, key)),
        school_id: rid(Table::Schools, school),
        class_name: key.to_string(),
        class_level: ClassLevel::Primary,
        class_teacher_id: None,
        capacity: None,
        current_enrollment: 0,
        session_id: None,
        created_at: 0,
        updated_at: 0,
    }
}

#[test]
fn the_rate_is_zero_where_nothing_was_expected() {
    assert_eq!(AnalyticsQ::collection_rate(0, 0), Some(0));
    assert_eq!(AnalyticsQ::collection_rate(500_00, 0), Some(0));
    assert_eq!(AnalyticsQ::collection_rate(i64::MAX, 0), Some(0));
    assert_eq!(AnalyticsQ::collection_rate(-3, 0), Some(0));
}

#[test]
fn the_rate_is_collected_by_expected_times_a_hundred() {
    assert_eq!(AnalyticsQ::collection_rate(50_00, 200_00), Some(25_00));
    assert_eq!(AnalyticsQ::collection_rate(200_00, 200_00), Some(100_00));
    assert_eq!(AnalyticsQ::collection_rate(0, 200_00), Some(0));
    assert_eq!(AnalyticsQ::collection_rate(1, 3), Some(33_33));
    assert_eq!(AnalyticsQ::collection_rate(2, 3), Some(66_66));
    assert_eq!(AnalyticsQ::collection_rate(300_00, 200_00), Some(150_00));
    assert_eq!(AnalyticsQ::collection_rate(1, 100_000), Some(0));
    assert_eq!(AnalyticsQ::collection_rate(1, 10_000), Some(1));
}

#[test]
fn the_rate_of_negative_figures_is_rounded_towards_zero() {
    assert_eq!(AnalyticsQ::collection_rate(-1, 3), Some(-33_33));
    assert_eq!(AnalyticsQ::collection_rate(1, -3), Some(-33_33));
    assert_eq!(AnalyticsQ::collection_rate(-1, -3), Some(33_33));
}

#[test]
fn a_rate_that_does_not_fit_is_none() {
    assert_eq!(AnalyticsQ::collection_rate(i64::MAX, 1), None);
    assert_eq!(AnalyticsQ::collection_rate(i64::MAX, 10_000), Some(i64::MAX));
    assert_eq!(AnalyticsQ::collection_rate(i64::MIN, 10_000), Some(i64::MIN));
    assert_eq!(AnalyticsQ::collection_rate(i64::MIN, -10_000), None);
    assert_eq!(AnalyticsQ::collection_rate(i64::MAX, i64::MAX), Some(100_00));
}

#[test]
fn the_dashboard_counts_and_sums_one_school() {
    let students = vec![
        student("a", "s1", StudentStatus::Active),
        student("b", "s1", StudentStatus::Graduated),
        student("c", "s2", StudentStatus::Active),
        student("d", "s1", StudentStatus::Active),
    ];
    let users = vec![
        user("u1", "s1", UserType::Teacher, UserStatus::Active),
        user("u2", "s1", UserType::Teacher, UserStatus::Suspended),
        user("u3", "s1", UserType::Admin, UserStatus::Active),
        user("u4", "s2", UserType::Teacher, UserStatus::Active),
    ];
    let classes = vec![class("c1", "s1"), class("c2", "s1"), class("c3", "s1"), class("c4", "s2")];
    let invoices = vec![
        invoice("i1", "s1", "t1", 1000_00, 250_00),
        invoice("i2", "s1", "t1", 1000_00, 500_00),
        invoice("i3", "s1", "t2", 1000_00, 1000_00),
        invoice("i4", "s2", "t1", 1000_00, 1000_00),
    ];
    let m = AnalyticsQ
        .get_dashboard_metrics(&students, &users, &classes, &invoices, "s1".to_string(), "t1".to_string())
        .unwrap();
    assert_eq!(m.total_students, 2);
    assert_eq!(m.total_teachers, 1);
    assert_eq!(m.total_classes, 3);
    assert_eq!(m.total_collected, 750_00);
    assert_eq!(m.total_expected, 2000_00);
    assert_eq!(m.collection_rate, 37_50);
}

#[test]
fn the_dashboard_shows_zero_where_nothing_is_expected_whatever_was_collected() {
    let invoices = vec![invoice("i1", "s1", "t1", 0, 300_00), invoice("i2", "s1", "t1", 0, 0), invoice("i3", "s1", "t2", 50, 10)];
    let m = AnalyticsQ
        .get_dashboard_metrics(&Vec::new(), &Vec::new(), &Vec::new(), &invoices, "s1".to_string(), "t1".to_string())
        .unwrap();
    assert_eq!(m.total_expected, 0);
    assert_eq!(m.total_collected, 300_00);
    assert_eq!(m.collection_rate, 0);
    let m = AnalyticsQ::metrics_from(0, 0, 0, i64::MAX as i128, 0).unwrap();
    assert_eq!(m.collection_rate, 0);
    let m = AnalyticsQ::metrics_from(0, 0, 0, 1_00, 32_00).unwrap();
    assert_eq!(m.collection_rate, 3_12);
    let m = AnalyticsQ::metrics_from(0, 0, 0, i64::MAX as i128, i64::MAX as i128).unwrap();
    assert_eq!(m.collection_rate, 100_00);
}

#[test]
fn the_dashboard_of_a_school_without_invoices_shows_zero() {
    let m = AnalyticsQ
        .get_dashboard_metrics(&Vec::new(), &Vec::new(), &Vec::new(), &Vec::new(), "s1".to_string(), "t1".to_string())
        .unwrap();
    assert_eq!(
        (m.total_students, m.total_teachers, m.total_classes, m.total_collected, m.total_expected, m.collection_rate),
        (0, 0, 0, 0, 0, 0)
    );
}

#[test]
fn a_dashboard_that_cannot_hold_its_figures_is_an_error() {
    let invoices = vec![invoice("i1", "s1", "t1", i64::MAX, 0), invoice("i2", "s1", "t1", 1, 0)];
    let r = AnalyticsQ.get_dashboard_metrics(&Vec::new(), &Vec::new(), &Vec::new(), &invoices, "s1".to_string(), "t1".to_string());
    assert!(matches!(r, Err(Error::SurrealDb(ref why)) if why == "number out of range"));
    assert!(AnalyticsQ::metrics_from(u64::MAX, 0, 0, 0, 0).is_err());
    assert!(AnalyticsQ::metrics_from(0, 0, 0, i64::MAX as i128, 1).is_err());
    let m = AnalyticsQ::metrics_from(3, 2, 1, 10, 40).unwrap();
    assert_eq!(m.collection_rate, 25_00);
    assert_eq!(m.total_students, 3);
}

#[test]
fn fee_collection_by_class_is_the_same_under_both_names() {
    let classes = vec![class("c1", "s1")];
    let mut st = student("st1", "s1", StudentStatus::Active);
    st.current_class_id = Some(rid(Table::Classes, "c1"));
    let students = vec![st];
    let invoices = vec![invoice("i1", "s1", "t1", 100, 40)];
    let rows = AnalyticsQ.get_fee_collection_by_class(&invoices, &students, &classes, "s1".to_string(), "t1".to_string());
    assert_eq!(rows.len(), 1);
    assert_eq!(rows[0].class_name, Some("c1".to_string()));
    assert_eq!((rows[0].total_invoices, rows[0].total_collected, rows[0].total_outstanding), (1, 40, 60));
}

#[test]
fn making_a_template_the_default_leaves_exactly_one() {
    let mut templates = Vec::new();
    for (k, school, default) in [("tpl1", "s1", true), ("tpl2", "s1", true), ("tpl3", "s2", true), ("tpl4", "s1", false)] {
        let t = ReportCardTemplate {
            id: None,
            school_id: rid(Table::Schools, school),
            template_name: k.to_string(),
            template_html: None,
            is_default: default,
            created_at: 0,
            updated_at: 0,
        };
        ReportCardTemplateQ.create(&mut templates, t, k.to_string()).unwrap();
    }
    ReportCardTemplateQ.set_default(&mut templates, "s1".to_string(), "tpl4".to_string(), 9).unwrap();
    let flags: Vec<bool> = templates.iter().map(|t| t.is_default).collect();
    assert_eq!(flags, vec![false, false, true, true]);
    let stamps: Vec<i64> = templates.iter().map(|t| t.updated_at).collect();
    assert_eq!(stamps, vec![9, 9, 0, 9]);
    assert_eq!(ReportCardTemplateQ.get_default(&templates, "s1".to_string()).unwrap().template_name, "tpl4");
    let r = ReportCardTemplateQ.set_default(&mut templates, "s1".to_string(), "tpl3".to_string(), 10);
    assert!(matches!(r, Err(Error::NotFound(ref k)) if k == "tpl3"));
    let flags: Vec<bool> = templates.iter().map(|t| t.is_default).collect();
    assert_eq!(flags, vec![false, false, true, true]);
    assert!(ReportCardTemplateQ.get_default(&templates, "s3".to_string()).is_none());
}

#[test]
fn settings_are_set_and_read() {
    let mut settings: Vec<SchoolSetting> = Vec::new();
    SchoolSettingQ
        .upsert(&mut settings, "s1".to_string(), "motto".to_string(), "Learn".to_string(), SettingType::Text, "k1".to_string(), 5)
        .unwrap();
    assert_eq!(settings.len(), 1);
    assert_eq!(settings[0].id.as_ref().unwrap().key, "k1");
    assert_eq!(SchoolSettingQ.get(&settings, "s1".to_string(), "motto".to_string()), Some("Learn".to_string()));
    assert_eq!(SchoolSettingQ.get(&settings, "s2".to_string(), "motto".to_string()), None);
    SchoolSettingQ
        .upsert(&mut settings, "s1".to_string(), "motto".to_string(), "Serve".to_string(), SettingType::Text, "k2".to_string(), 6)
        .unwrap();
    assert_eq!(settings.len(), 1);
    assert_eq!(settings[0].setting_value, Some("Serve".to_string()));
    assert_eq!(settings[0].updated_at, 6);
    let taken = SchoolSettingQ.upsert(&mut settings, "s2".to_string(), "motto".to_string(), "X".to_string(), SettingType::Text, "k1".to_string(), 7);
    assert!(matches!(taken, Err(Error::Duplicate(ref k)) if k == "k1"));
    assert_eq!(settings.len(), 1);
    let u = SchoolSettingQ.update(&mut settings, "s1".to_string(), "motto".to_string(), "Lead".to_string(), 8).unwrap();
    assert_eq!(u.setting_value, Some("Lead".to_string()));
    assert!(SchoolSettingQ.update(&mut settings, "s1".to_string(), "crest".to_string(), "Lion".to_string(), 8).is_none());
    let blank = SchoolSetting {
        id: None,
        school_id: rid(Table::Schools, "s1"),
        setting_key: "crest".to_string(),
        setting_value: None,
        setting_type: SettingType::Text,
        updated_at: 0,
    };
    SchoolSettingQ.create(&mut settings, blank, "k3".to_string()).unwrap();
    assert_eq!(SchoolSettingQ.get(&settings, "s1".to_string(), "crest".to_string()), None);
    assert_eq!(SchoolSettingQ.get_all(&settings, "s1".to_string()).len(), 2);
    assert!(SchoolSettingQ.get_all(&settings, "s2".to_string()).is_empty());
}

#[test]
fn the_audit_trail_comes_latest_first_and_limited() {
    let mut logs = Vec::new();
    for i in 0..60i64 {
        let l = ActivityLog {
            id: None,
            school_id: rid(Table::Schools, if i % 2 == 0 { "s1" } else { "s2" }),
            user_id: if i % 3 == 0 { Some(rid(Table::Users, "u1")) } else { None },
            action: ActionType::Update,
            entity_type: Some("invoice".to_string()),
            entity_id: Some(format!("i{}", i % 4)),
            description: None,
            ip_address: None,
            metadata: None,
            created_at: i,
        };
        ActivityLogQ.log(&mut logs, l, format!("l{}", i)).unwrap();
    }
    let five = ActivityLogQ.get_by_school(&logs, "s1".to_string(), Some(5));
    let stamps: Vec<i64> = five.iter().map(|l| l.created_at).collect();
    assert_eq!(stamps, vec![58, 56, 54, 52, 50]);
    assert!(five.iter().all(|l| l.school_id.key == "s1"));
    assert_eq!(ActivityLogQ.get_by_school(&logs, "s1".to_string(), None).len(), 30);
    assert_eq!(ActivityLogQ.get_by_school(&logs, "s1".to_string(), Some(0)).len(), 0);
    let mut many = logs.clone();
    for i in 60..200i64 {
        let mut l = logs[0].clone();
        l.id = None;
        l.created_at = i;
        ActivityLogQ.log(&mut many, l, format!("l{}", i)).unwrap();
    }
    assert_eq!(ActivityLogQ.get_by_school(&many, "s1".to_string(), None).len(), 50);
    let by_user = ActivityLogQ.get_by_user(&logs, "u1".to_string(), Some(3));
    let stamps: Vec<i64> = by_user.iter().map(|l| l.created_at).collect();
    assert_eq!(stamps, vec![57, 54, 51]);
    let on = ActivityLogQ.get_by_entity(&logs, "invoice".to_string(), "i1".to_string());
    assert_eq!(on.len(), 15);
    assert_eq!(on[0].created_at, 57);
    assert_eq!(on[14].created_at, 1);
    assert!(ActivityLogQ.get_by_entity(&logs, "payment".to_string(), "i1".to_string()).is_empty());
}
