use sms_db::error::range_error;
use sms_db::error::Error;
use sms_db::helpers::generators::generate_admission_number;
use sms_db::helpers::generators::generate_invoice_number;
use sms_db::helpers::generators::generate_receipt_number;
use sms_db::helpers::query_filters::AttendanceFilter;
use sms_db::helpers::query_filters::InvoiceFilter;
use sms_db::helpers::query_filters::StudentFilter;
use sms_db::helpers::surreal_util::to_surreal_datetime;
use sms_db::models::ClassLevel;
use sms_db::models::AssessmentType;
use sms_db::models::FeeType;
use sms_db::models::InvoiceStatus;
use sms_db::models::PaymentMethod;
use sms_db::models::SmsType;
use sms_db::models::SubscriptionPlan;
use sms_db::models::UserType;
use sms_db::text::contains_ignoring_case;
use sms_db::text::slice_before;
use sms_db::text::slice_eq;
use sms_db::text::str_eq;
use sms_db::text::slice_within;
use sms_db::text::str_before;
use sms_db::text::str_contains;
use sms_db::values::id_is;
use sms_db::values::mean;
use sms_db::values::RecordId;
use sms_db::values::Table;
use sms_db::UserDto;

#[test]
fn invoice_numbers_are_padded_to_six_digits() {
    assert_eq!(generate_invoice_number(2026, 42), "INV-2026-000042");
    assert_eq!(generate_invoice_number(2026, 0), "INV-2026-000000");
    assert_eq!(generate_invoice_number(2026, 999_999), "INV-2026-999999");
    assert_eq!(generate_invoice_number(2026, 1_234_567), "INV-2026-1234567");
    assert_eq!(generate_invoice_number(2026, u64::MAX), "INV-2026-18446744073709551615");
    assert_eq!(generate_invoice_number(-44, 7), "INV--44-000007");
    assert_eq!(generate_invoice_number(i32::MIN, 1), "INV--2147483648-000001");
}

#[test]
fn receipt_numbers_are_padded_to_six_digits() {
    assert_eq!(generate_receipt_number(2025, 1), "RCP-2025-000001");
    assert_eq!(generate_receipt_number(0, 10), "RCP-0-000010");
    assert_eq!(generate_receipt_number(i32::MAX, 100_000), "RCP-2147483647-100000");
}

#[test]
fn admission_numbers_are_padded_to_three_digits() {
    assert_eq!(generate_admission_number(2026, 7), "2026/007");
    assert_eq!(generate_admission_number(2026, 70), "2026/070");
    assert_eq!(generate_admission_number(2026, 700), "2026/700");
    assert_eq!(generate_admission_number(2026, 7000), "2026/7000");
    assert_eq!(generate_admission_number(-5, 0), "-5/000");
}

#[test]
fn numbers_of_different_counts_differ() {
    let mut seen = Vec::new();
    for year in [2025, 2026] {
        for count in [0u64, 1, 9, 10, 99, 100, 999_999, 1_000_000] {
            let n = generate_invoice_number(year, count);
            assert!(!seen.contains(&n));
            seen.push(n);
        }
    }
}

#[test]
fn a_day_is_kept_as_its_midnight_in_utc() {
    assert_eq!(to_surreal_datetime(1970, 1, 1), Some(0));
    assert_eq!(to_surreal_datetime(1970, 1, 2), Some(86_400));
    assert_eq!(to_surreal_datetime(1969, 12, 31), Some(-86_400));
    assert_eq!(to_surreal_datetime(2000, 1, 1), Some(946_684_800));
    assert_eq!(to_surreal_datetime(2024, 2, 29), Some(1_709_164_800));
    assert_eq!(to_surreal_datetime(2026, 10, 28), Some(1_793_145_600));
}

#[test]
fn a_day_that_the_calendar_lacks_is_none() {
    assert_eq!(to_surreal_datetime(2023, 2, 29), None);
    assert_eq!(to_surreal_datetime(2024, 13, 1), None);
    assert_eq!(to_surreal_datetime(2024, 0, 1), None);
    assert_eq!(to_surreal_datetime(2024, 4, 31), None);
    assert_eq!(to_surreal_datetime(2024, 4, 0), None);
}

#[test]
fn errors_say_what_they_are() {
    assert_eq!(Error::NotFound("u1".to_string()).message(), "Record not found: u1");
    assert_eq!(Error::Duplicate("a@x".to_string()).message(), "Duplicate record: a@x");
    assert_eq!(Error::SurrealDb("down".to_string()).message(), "Database error: down");
    assert_eq!(range_error().message(), "Database error: number out of range");
}

#[test]
fn text_sorts_byte_by_byte() {
    assert!(str_before("Ada", "Bob"));
    assert!(!str_before("Bob", "Ada"));
    assert!(!str_before("Ada", "Ada"));
    assert!(str_before("Ada", "Adam"));
    assert!(!str_before("Adam", "Ada"));
    assert!(str_before("", "a"));
    assert!(!str_before("", ""));
    assert!(str_before("Zed", "ada"));
    assert!(str_before("z", "é"));
    assert!(slice_before(&[1, 2], &[1, 3]));
    assert!(!slice_before(&[1, 3], &[1, 2, 9]));
}

#[test]
fn text_is_searched_for_text() {
    assert!(str_contains("Chukwuma", "kwu"));
    assert!(str_contains("Chukwuma", ""));
    assert!(str_contains("", ""));
    assert!(!str_contains("", "a"));
    assert!(str_contains("Chukwuma", "Chukwuma"));
    assert!(!str_contains("Chukwuma", "Chukwumah"));
    assert!(str_contains("Chukwuma", "ma"));
    assert!(!str_contains("Chukwuma", "KWU"));
    assert!(slice_within(&[2, 3], &[1, 2, 3, 4]));
    assert!(!slice_within(&[3, 2], &[1, 2, 3, 4]));
}

#[test]
fn case_is_set_aside_in_a_search() {
    assert!(contains_ignoring_case("Chukwuma", "KWU"));
    assert!(contains_ignoring_case("CHUKWUMA", "kwu"));
    assert!(contains_ignoring_case("Émile", "émi"));
    assert!(!contains_ignoring_case("Chukwuma", "obi"));
}

#[test]
fn identities_name_table_and_key() {
    let id = RecordId::new(Table::Users, "u1".to_string());
    assert!(id.is(Table::Users, &"u1".to_string()));
    assert!(!id.is(Table::Schools, &"u1".to_string()));
    assert!(!id.is(Table::Users, &"u2".to_string()));
    assert!(id.same(&RecordId { table: Table::Users, key: "u1".to_string() }));
    assert!(!id.same(&RecordId { table: Table::Users, key: "u".to_string() }));
    assert!(id_is(&Some(id.clone()), Table::Users, &"u1".to_string()));
    assert!(!id_is(&None, Table::Users, &"u1".to_string()));
}

#[test]
fn means_are_rounded_towards_zero() {
    assert_eq!(mean(10, 4), 2);
    assert_eq!(mean(-10, 4), -2);
    assert_eq!(mean(0, 3), 0);
    assert_eq!(mean(7_550, 2), 3_775);
    assert_eq!(mean(i64::MAX as i128 * 3, 3), i64::MAX);
    assert_eq!(mean(i64::MIN as i128 * 2, 2), i64::MIN);
}

#[test]
fn values_are_kept_under_their_names() {
    assert_eq!(ClassLevel::JuniorSecondary.as_str(), "junior_secondary");
    assert_eq!(ClassLevel::Nursery.as_str(), "nursery");
    assert_eq!(FeeType::Tuition.as_str(), "tuition");
    assert_eq!(FeeType::Other.as_str(), "other");
}

#[test]
fn values_are_read_back_from_their_names() {
    assert_eq!(ClassLevel::from_name("junior_secondary"), Some(ClassLevel::JuniorSecondary));
    assert_eq!(ClassLevel::from_name("Junior_Secondary"), None);
    assert_eq!(ClassLevel::from_name(""), None);
    assert_eq!(FeeType::from_name("books"), Some(FeeType::Books));
    assert_eq!(FeeType::from_name("book"), None);
    assert_eq!(UserType::from_name("super_admin"), Some(UserType::SuperAdmin));
    assert_eq!(InvoiceStatus::from_name("paid"), Some(InvoiceStatus::Paid));
    assert_eq!(InvoiceStatus::from_name("partial"), Some(InvoiceStatus::Partial));
    assert_eq!(InvoiceStatus::from_name("all"), None);
    for plan in [
        SubscriptionPlan::Starter,
        SubscriptionPlan::Basic,
        SubscriptionPlan::Standard,
        SubscriptionPlan::Premium,
        SubscriptionPlan::Enterprise,
    ] {
        assert_eq!(SubscriptionPlan::from_name(plan.as_str()), Some(plan));
    }
    for kind in [
        AssessmentType::Ca1,
        AssessmentType::Ca2,
        AssessmentType::Ca3,
        AssessmentType::Exam,
        AssessmentType::Test,
        AssessmentType::Assignment,
    ] {
        assert_eq!(AssessmentType::from_name(kind.as_str()), Some(kind));
    }
    assert_eq!(PaymentMethod::BankTransfer.as_str(), "bank_transfer");
    assert_eq!(SmsType::ResultNotification.as_str(), "result_notification");
    assert!(str_eq("émile", "émile"));
    assert!(!str_eq("emile", "émile"));
    assert!(slice_eq(&[], &[]));
    assert!(!slice_eq(&[1], &[1, 2]));
}

#[test]
fn tables_are_known_by_their_names() {
    assert_eq!(Table::Schools.as_str(), "schools");
    assert_eq!(Table::StudentParents.as_str(), "student_parents");
    assert_eq!(Table::SmsLog.as_str(), "sms_log");
    assert_eq!(Table::Attendance.as_str(), "attendance");
    assert_eq!(Table::AttendanceSummary.as_str(), "attendance_summary");
    assert_eq!(Table::from_name("report_card_templates"), Some(Table::ReportCardTemplates));
    assert_eq!(Table::from_name("report_cards"), Some(Table::ReportCards));
    assert_eq!(Table::from_name("report_card_scores"), Some(Table::ReportCardScores));
    assert_eq!(Table::from_name("school"), None);
    assert_eq!(Table::from_name("Schools"), None);
    for table in [Table::Users, Table::Invoices, Table::InvoiceItems, Table::Events, Table::EventRsvps] {
        assert_eq!(Table::from_name(table.as_str()), Some(table));
    }
}

#[test]
fn a_filter_admits_all_until_told_otherwise() {
    let s = StudentFilter::default();
    assert!(s.school_id.is_none() && s.class_id.is_none() && s.status.is_none() && s.search.is_none());
    let v = InvoiceFilter::default();
    assert!(v.school_id.is_none() && v.student_id.is_none() && v.term_id.is_none() && v.status.is_none());
    let a = AttendanceFilter::default();
    assert!(a.student_id.is_none() && a.class_id.is_none() && a.date_from.is_none() && a.date_to.is_none() && a.status.is_none());
}

#[test]
fn a_user_dto_is_copied_whole() {
    let u = UserDto { id: 1, name: "Ahmad".to_string() };
    let c = u.clone();
    assert_eq!(c.id, 1);
    assert_eq!(c.name, "Ahmad");
}
