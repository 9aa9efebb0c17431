use sms_db::error::Error;
use sms_db::helpers::generators::next_invoice_seq;
use sms_db::helpers::generators::next_receipt_seq;
use sms_db::helpers::generators::next_seq;
use sms_db::helpers::generators::Sequence;
use sms_db::models::academic::Class;
use sms_db::models::fee_management::FeeStructure;
use sms_db::models::fee_management::Invoice;
use sms_db::models::fee_management::InvoiceItem;
use sms_db::models::fee_management::Payment;
use sms_db::models::fee_management::PaymentReminder;
use sms_db::models::ClassLevel;
use sms_db::models::DeliveryStatus;
use sms_db::models::FeeFrequency;
use sms_db::models::FeeType;
use sms_db::models::Gender;
use sms_db::models::InvoiceStatus;
use sms_db::models::PaymentMethod;
use sms_db::models::PaymentStatus;
use sms_db::models::ReminderType;
use sms_db::models::Student;
use sms_db::models::StudentStatus;
use sms_db::queries::FeeStructureQ;
use sms_db::queries::InvoiceQ;
use sms_db::queries::PaymentQ;
use sms_db::queries::PaymentReminderQ;
use sms_db::values::RecordId;
use sms_db::values::Table;

fn rid(table: Table, key: &str) -> RecordId {
    RecordId { table, key: key.to_string() }
}

fn invoice(key: &str, school: &str, student: &str, term: &str, total: i64, paid: i64) -> Invoice {
    Invoice {
        id: Some(rid(Table::Invoices, key)),
        student_id: rid(Table::Students, student),
        school_id: rid(Table::Schools, school),
        term_id: rid(Table::Terms, term),
        invoice_number: format!("INV-{}", key),
        total_amount: total,
        amount_paid: paid,
        balance: total - paid,
        discount_amount: 0,
        discount_reason: None,
        due_date: 1000,
        status: InvoiceStatus::Unpaid,
        generated_by: None,
        generated_at: 1,
        created_at: 1,
        updated_at: 1,
    }
}

fn student(key: &str, school: &str, class: Option<&str>) -> Student {
    Student {
        id: Some(rid(Table::Students, key)),
        school_id: rid(Table::Schools, school),
        admission_number: format!("2026/{}", key),
        first_name: "Ngozi".to_string(),
        middle_name: None,
        last_name: "Eze".to_string(),
        date_of_birth: 0,
        gender: Gender::Female,
        address: None,
        current_class_id: class.map(|c| rid(Table::Classes, c)),
        admission_date: 0,
        status: StudentStatus::Active,
        profile_photo_url: None,
        blood_group: None,
        genotype: None,
        medical_conditions: None,
        created_at: 0,
        updated_at: 0,
    }
}

fn class(key: &str, school: &str, name: &str) -> Class {
    Class {
        id: Some(rid(Table::Classes, key)),
        school_id: rid(Table::Schools, school),
        class_name: name.to_string(),
        class_level: ClassLevel::Primary,
        class_teacher_id: None,
        capacity: None,
        current_enrollment: 0,
        session_id: None,
        created_at: 0,
        updated_at: 0,
    }
}

fn payment(key: &str, invoice: &str, student: &str, amount: i64, at: i64) -> Payment {
    Payment {
        id: Some(rid(Table::Payments, key)),
        invoice_id: rid(Table::Invoices, invoice),
        student_id: rid(Table::Students, student),
        receipt_number: format!("RCP-{}", key),
        amount_paid: amount,
        payment_method: PaymentMethod::Cash,
        payment_reference: None,
        payment_date: at,
        paid_by: None,
        received_by: None,
        transaction_fee: 0,
        net_amount: None,
        status: PaymentStatus::Successful,
        receipt_url: None,
        notes: None,
        created_at: at,
        updated_at: at,
    }
}

fn fee(key: &str, school: &str, kind: FeeType, level: &str, session: Option<&str>) -> FeeStructure {
    FeeStructure {
        id: Some(rid(Table::FeeStructures, key)),
        school_id: rid(Table::Schools, school),
        fee_name: key.to_string(),
        fee_type: kind,
        class_level: level.to_string(),
        amount: 500_00,
        frequency: FeeFrequency::PerTerm,
        session_id: session.map(|s| rid(Table::AcademicSessions, s)),
        is_mandatory: true,
        created_at: 0,
        updated_at: 0,
    }
}

#[test]
fn a_part_payment_leaves_the_invoice_partial() {
    let mut invoices = vec![invoice("i1", "s1", "st1", "t1", 1000_00, 0)];
    let v = InvoiceQ.apply_payment(&mut invoices, "i1".to_string(), 400_00, 50).unwrap().unwrap();
    assert_eq!(v.amount_paid, 400_00);
    assert_eq!(v.balance, 600_00);
    assert_eq!(v.status, InvoiceStatus::Partial);
    assert_eq!(v.updated_at, 50);
    assert_eq!(invoices[0].balance, 600_00);
    assert_eq!(invoices[0].amount_paid, 400_00);
    assert_eq!(invoices[0].status, InvoiceStatus::Partial);
    assert_eq!(invoices[0].total_amount, 1000_00);
}

#[test]
fn a_payment_of_the_whole_balance_pays_the_invoice() {
    let mut invoices = vec![invoice("i1", "s1", "st1", "t1", 1000_00, 400_00)];
    let v = InvoiceQ.apply_payment(&mut invoices, "i1".to_string(), 600_00, 51).unwrap().unwrap();
    assert_eq!(v.balance, 0);
    assert_eq!(v.amount_paid, 1000_00);
    assert_eq!(v.status, InvoiceStatus::Paid);
}

#[test]
fn one_hundredth_short_is_not_paid() {
    let mut invoices = vec![invoice("i1", "s1", "st1", "t1", 1000_00, 0)];
    let v = InvoiceQ.apply_payment(&mut invoices, "i1".to_string(), 999_99, 51).unwrap().unwrap();
    assert_eq!(v.balance, 1);
    assert_eq!(v.status, InvoiceStatus::Partial);
}

#[test]
fn paying_too_much_pays_the_invoice_and_leaves_a_negative_balance() {
    let mut invoices = vec![invoice("i1", "s1", "st1", "t1", 1000_00, 0)];
    let v = InvoiceQ.apply_payment(&mut invoices, "i1".to_string(), 1000_01, 51).unwrap().unwrap();
    assert_eq!(v.balance, -1);
    assert_eq!(v.amount_paid, 1000_01);
    assert_eq!(v.status, InvoiceStatus::Paid);
}

#[test]
fn a_payment_of_nothing_on_an_unpaid_invoice_changes_no_status() {
    let mut invoices = vec![invoice("i1", "s1", "st1", "t1", 1000_00, 0)];
    invoices[0].status = InvoiceStatus::Overdue;
    let v = InvoiceQ.apply_payment(&mut invoices, "i1".to_string(), 0, 51).unwrap().unwrap();
    assert_eq!(v.balance, 1000_00);
    assert_eq!(v.amount_paid, 0);
    assert_eq!(v.status, InvoiceStatus::Overdue);
    assert_eq!(v.updated_at, 51);
}

#[test]
fn a_payment_on_an_invoice_with_nothing_to_pay_pays_it() {
    let mut invoices = vec![invoice("i1", "s1", "st1", "t1", 0, 0)];
    let v = InvoiceQ.apply_payment(&mut invoices, "i1".to_string(), 0, 51).unwrap().unwrap();
    assert_eq!(v.balance, 0);
    assert_eq!(v.status, InvoiceStatus::Paid);
}

#[test]
fn a_payment_reaches_one_invoice_only() {
    let mut invoices = vec![
        invoice("i1", "s1", "st1", "t1", 1000_00, 0),
        invoice("i2", "s1", "st2", "t1", 1000_00, 0),
    ];
    InvoiceQ.apply_payment(&mut invoices, "i2".to_string(), 100_00, 51).unwrap().unwrap();
    assert_eq!(invoices[0].balance, 1000_00);
    assert_eq!(invoices[0].status, InvoiceStatus::Unpaid);
    assert_eq!(invoices[0].updated_at, 1);
    assert_eq!(invoices[1].balance, 900_00);
    assert!(InvoiceQ.apply_payment(&mut invoices, "i3".to_string(), 100_00, 51).unwrap().is_none());
    assert_eq!(invoices[1].balance, 900_00);
}

#[test]
fn a_payment_that_an_invoice_cannot_hold_changes_nothing() {
    let mut invoices = vec![invoice("i1", "s1", "st1", "t1", 1000_00, 0)];
    invoices[0].amount_paid = i64::MAX;
    let r = InvoiceQ.apply_payment(&mut invoices, "i1".to_string(), 1, 51);
    assert!(matches!(r, Err(Error::SurrealDb(ref why)) if why == "number out of range"));
    assert_eq!(invoices[0].amount_paid, i64::MAX);
    assert_eq!(invoices[0].balance, 1000_00);
    assert_eq!(invoices[0].updated_at, 1);
    invoices[0].amount_paid = 0;
    invoices[0].balance = i64::MIN;
    assert!(InvoiceQ.apply_payment(&mut invoices, "i1".to_string(), 1, 51).is_err());
}

#[test]
fn invoices_are_filed_and_found() {
    let mut invoices = Vec::new();
    let mut data = invoice("x", "s1", "st1", "t1", 500_00, 0);
    data.id = None;
    let made = InvoiceQ.create(&mut invoices, data, "i1".to_string()).unwrap().unwrap();
    assert_eq!(made.id.as_ref().unwrap().key, "i1");
    assert_eq!(made.id.as_ref().unwrap().table, Table::Invoices);
    let again = InvoiceQ.create(&mut invoices, invoice("x", "s1", "st1", "t2", 1, 0), "i1".to_string());
    assert!(matches!(again, Err(Error::Duplicate(ref k)) if k == "i1"));
    assert_eq!(invoices.len(), 1);
    assert!(InvoiceQ.get_by_student_term(&invoices, "st1".to_string(), "t1".to_string()).is_some());
    assert!(InvoiceQ.get_by_student_term(&invoices, "st1".to_string(), "t2".to_string()).is_none());
    assert!(InvoiceQ.get_by_student_term(&invoices, "st2".to_string(), "t1".to_string()).is_none());
    let cancelled = InvoiceQ.cancel(&mut invoices, "i1".to_string(), 77).unwrap();
    assert_eq!(cancelled.status, InvoiceStatus::Cancelled);
    assert_eq!(invoices[0].updated_at, 77);
    assert!(InvoiceQ.cancel(&mut invoices, "i2".to_string(), 77).is_none());
}

#[test]
fn an_invoice_comes_with_its_lines_and_student() {
    let invoices = vec![invoice("i1", "s1", "st1", "t1", 500_00, 0), invoice("i2", "s1", "st9", "t1", 1, 0)];
    let students = vec![student("st1", "s1", None)];
    let mut items = Vec::new();
    for (k, inv) in [("a", "i1"), ("b", "i2"), ("c", "i1")] {
        let item = InvoiceItem {
            id: None,
            invoice_id: rid(Table::Invoices, inv),
            fee_structure_id: None,
            description: Some(k.to_string()),
            amount: 250_00,
            created_at: 0,
        };
        InvoiceQ.add_item(&mut items, item, k.to_string()).unwrap();
    }
    let (v, s, lines) = InvoiceQ.get_with_items(&invoices, &items, &students, "i1".to_string()).unwrap();
    assert_eq!(v.total_amount, 500_00);
    assert_eq!(s.unwrap().id.unwrap().key, "st1");
    let keys: Vec<String> = lines.iter().map(|l| l.id.as_ref().unwrap().key.clone()).collect();
    assert_eq!(keys, vec!["a", "c"]);
    let (_, nobody, one) = InvoiceQ.get_with_items(&invoices, &items, &students, "i2".to_string()).unwrap();
    assert!(nobody.is_none());
    assert_eq!(one.len(), 1);
    assert!(InvoiceQ.get_with_items(&invoices, &items, &students, "i3".to_string()).is_none());
}

#[test]
fn invoices_by_status_come_by_due_date_within_the_school() {
    let mut invoices = vec![
        invoice("i1", "s1", "st1", "t1", 1, 0),
        invoice("i2", "s2", "st1", "t1", 1, 0),
        invoice("i3", "s1", "st2", "t1", 1, 0),
        invoice("i4", "s1", "st1", "t1", 1, 0),
        invoice("i5", "s1", "st1", "t1", 1, 0),
    ];
    invoices[0].due_date = 30;
    invoices[2].due_date = 10;
    invoices[3].due_date = 30;
    invoices[4].due_date = 20;
    invoices[4].status = InvoiceStatus::Paid;
    let students = vec![student("st1", "s1", None)];
    let found = InvoiceQ.get_by_status(&invoices, &students, "s1".to_string(), InvoiceStatus::Unpaid);
    let keys: Vec<String> = found.iter().map(|p| p.0.id.as_ref().unwrap().key.clone()).collect();
    assert_eq!(keys, vec!["i3", "i1", "i4"]);
    assert!(found[0].1.is_none());
    assert!(found[1].1.is_some());
    assert!(found.iter().all(|p| p.0.school_id.key == "s1"));
}

#[test]
fn the_invoices_of_a_student_come_latest_first() {
    let mut invoices = vec![
        invoice("i1", "s1", "st1", "t1", 1, 0),
        invoice("i2", "s1", "st1", "t2", 1, 0),
        invoice("i3", "s1", "st2", "t2", 1, 0),
        invoice("i4", "s1", "st1", "t3", 1, 0),
    ];
    invoices[0].created_at = 5;
    invoices[1].created_at = 9;
    invoices[3].created_at = 5;
    let found = InvoiceQ.get_by_student(&invoices, "st1".to_string());
    let keys: Vec<String> = found.iter().map(|v| v.id.as_ref().unwrap().key.clone()).collect();
    assert_eq!(keys, vec!["i2", "i1", "i4"]);
}

#[test]
fn a_term_is_summed_up() {
    let invoices = vec![
        invoice("i1", "s1", "st1", "t1", 1000_00, 250_00),
        invoice("i2", "s1", "st2", "t1", 500_00, 500_00),
        invoice("i3", "s2", "st3", "t1", 9_00, 9_00),
        invoice("i4", "s1", "st1", "t2", 7_00, 0),
    ];
    let s = InvoiceQ.get_collection_summary(&invoices, "s1".to_string(), "t1".to_string()).unwrap();
    assert_eq!(s.total_invoices, 2);
    assert_eq!(s.total_expected, 1500_00);
    assert_eq!(s.total_collected, 750_00);
    assert_eq!(s.total_outstanding, 750_00);
    assert!(InvoiceQ.get_collection_summary(&invoices, "s3".to_string(), "t1".to_string()).is_none());
}

#[test]
fn sums_cannot_overflow() {
    let invoices = vec![
        invoice("i1", "s1", "st1", "t1", i64::MAX, 0),
        invoice("i2", "s1", "st2", "t1", i64::MAX, 0),
        invoice("i3", "s1", "st2", "t1", i64::MAX, 0),
    ];
    let s = InvoiceQ.get_collection_summary(&invoices, "s1".to_string(), "t1".to_string()).unwrap();
    assert_eq!(s.total_expected, 3 * (i64::MAX as i128));
    assert_eq!(s.total_collected, 0);
}

#[test]
fn collection_is_told_class_by_class() {
    let classes = vec![class("c1", "s1", "Primary 1"), class("c2", "s1", "Primary 2"), class("c3", "s1", "Empty"), class("c4", "s2", "Elsewhere")];
    let students = vec![
        student("st1", "s1", Some("c2")),
        student("st2", "s1", Some("c1")),
        student("st3", "s1", Some("c2")),
        student("st4", "s1", None),
    ];
    let invoices = vec![
        invoice("i1", "s1", "st1", "t1", 100_00, 40_00),
        invoice("i2", "s1", "st2", "t1", 100_00, 100_00),
        invoice("i3", "s1", "st3", "t1", 100_00, 10_00),
        invoice("i4", "s1", "st4", "t1", 100_00, 1_00),
        invoice("i5", "s1", "st1", "t2", 100_00, 99_00),
        invoice("i6", "s1", "gone", "t1", 50_00, 0),
    ];
    let rows = InvoiceQ.get_collection_by_class(&invoices, &students, &classes, "s1".to_string(), "t1".to_string());
    assert_eq!(rows.len(), 3);
    assert_eq!(rows[0].class_name, Some("Primary 1".to_string()));
    assert_eq!((rows[0].total_invoices, rows[0].total_collected, rows[0].total_outstanding), (1, 100_00, 0));
    assert_eq!(rows[1].class_name, Some("Primary 2".to_string()));
    assert_eq!((rows[1].total_invoices, rows[1].total_collected, rows[1].total_outstanding), (2, 50_00, 150_00));
    assert_eq!(rows[2].class_name, None);
    assert_eq!((rows[2].total_invoices, rows[2].total_collected, rows[2].total_outstanding), (2, 1_00, 149_00));
    assert!(InvoiceQ.get_collection_by_class(&invoices, &students, &classes, "s2".to_string(), "t1".to_string()).is_empty());
}

#[test]
fn charges_are_listed_by_level_and_by_school() {
    let mut fees = Vec::new();
    for f in [
        fee("f1", "s1", FeeType::Tuition, "primary", Some("y1")),
        fee("f2", "s1", FeeType::Books, "all", Some("y1")),
        fee("f3", "s1", FeeType::Books, "nursery", Some("y1")),
        fee("f4", "s1", FeeType::Tuition, "primary", Some("y2")),
        fee("f5", "s2", FeeType::Tuition, "primary", Some("y1")),
        fee("f6", "s1", FeeType::Exam, "primary", None),
        fee("f7", "s1", FeeType::Books, "all", Some("y2")),
    ] {
        let key = f.fee_name.clone();
        FeeStructureQ.create(&mut fees, f, key).unwrap();
    }
    let due = FeeStructureQ.get_by_level_and_session(&fees, "s1".to_string(), "primary".to_string(), "y1".to_string());
    let keys: Vec<String> = due.iter().map(|f| f.fee_name.clone()).collect();
    assert_eq!(keys, vec!["f1", "f2"]);
    let all = FeeStructureQ.get_by_school(&fees, "s1".to_string());
    let keys: Vec<String> = all.iter().map(|f| f.fee_name.clone()).collect();
    assert_eq!(keys, vec!["f2", "f7", "f3", "f6", "f1", "f4"]);
    assert!(all.iter().all(|f| f.school_id.key == "s1"));
}

#[test]
fn payments_come_latest_first() {
    let mut payments = Vec::new();
    for p in [payment("pay1", "i1", "st1", 1, 10), payment("pay2", "i1", "st1", 2, 30), payment("pay3", "i2", "st1", 3, 20), payment("pay4", "i1", "st2", 4, 30)] {
        let key = p.id.as_ref().unwrap().key.clone();
        PaymentQ.record(&mut payments, p, key).unwrap();
    }
    let by_student: Vec<i64> = PaymentQ.get_by_student(&payments, "st1".to_string()).iter().map(|p| p.amount_paid).collect();
    assert_eq!(by_student, vec![2, 3, 1]);
    let by_invoice: Vec<i64> = PaymentQ.get_by_invoice(&payments, "i1".to_string()).iter().map(|p| p.amount_paid).collect();
    assert_eq!(by_invoice, vec![2, 4, 1]);
    assert_eq!(PaymentQ.get_by_receipt(&payments, "RCP-pay3".to_string()).unwrap().amount_paid, 3);
    assert!(PaymentQ.get_by_receipt(&payments, "RCP-pay9".to_string()).is_none());
}

#[test]
fn reminders_and_overdue_invoices() {
    let mut reminders = Vec::new();
    for (k, inv, at) in [("r1", "i1", 5), ("r2", "i2", 6), ("r3", "i1", 9)] {
        let m = PaymentReminder {
            id: None,
            invoice_id: rid(Table::Invoices, inv),
            parent_id: rid(Table::Parents, "par1"),
            reminder_type: ReminderType::Sms,
            message: k.to_string(),
            sent_at: at,
            delivery_status: DeliveryStatus::Sent,
            delivered_at: None,
            created_at: at,
        };
        PaymentReminderQ.create(&mut reminders, m, k.to_string()).unwrap();
    }
    let about: Vec<String> = PaymentReminderQ.get_by_invoice(&reminders, "i1".to_string()).iter().map(|m| m.message.clone()).collect();
    assert_eq!(about, vec!["r3", "r1"]);

    let day = 86_400;
    let mut invoices = vec![
        invoice("i1", "s1", "st1", "t1", 100, 0),
        invoice("i2", "s1", "st1", "t1", 100, 100),
        invoice("i3", "s1", "st1", "t1", 100, 50),
        invoice("i4", "s2", "st1", "t1", 100, 0),
        invoice("i5", "s1", "st1", "t1", 100, 0),
    ];
    invoices[0].due_date = 10 * day;
    invoices[1].due_date = 10 * day;
    invoices[1].status = InvoiceStatus::Paid;
    invoices[2].due_date = 12 * day;
    invoices[2].status = InvoiceStatus::Partial;
    invoices[3].due_date = 10 * day;
    invoices[4].due_date = 40 * day;
    let late = PaymentReminderQ.get_overdue_candidates(&invoices, "s1".to_string(), 7, 20 * day);
    let keys: Vec<String> = late.iter().map(|v| v.id.as_ref().unwrap().key.clone()).collect();
    assert_eq!(keys, vec!["i1", "i3"]);
    let at_the_edge = PaymentReminderQ.get_overdue_candidates(&invoices, "s1".to_string(), 8, 20 * day);
    assert_eq!(at_the_edge.len(), 1);
    let n = PaymentReminderQ.mark_overdue(&mut invoices, "s1".to_string(), 20 * day, 21 * day);
    assert_eq!(n, 2);
    assert_eq!(invoices[0].status, InvoiceStatus::Overdue);
    assert_eq!(invoices[1].status, InvoiceStatus::Paid);
    assert_eq!(invoices[2].status, InvoiceStatus::Overdue);
    assert_eq!(invoices[3].status, InvoiceStatus::Unpaid);
    assert_eq!(invoices[4].status, InvoiceStatus::Unpaid);
    assert_eq!(PaymentReminderQ.mark_overdue(&mut invoices, "s1".to_string(), 20 * day, 22 * day), 0);
}

#[test]
fn payments_of_a_school_are_counted_and_summed() {
    let invoices = vec![invoice("i1", "s1", "st1", "t1", 100, 0), invoice("i2", "s2", "st1", "t1", 100, 0)];
    let payments = vec![
        payment("pay1", "i1", "st1", 10_00, 10),
        payment("pay2", "i1", "st1", 20_00, 20),
        payment("pay3", "i2", "st1", 40_00, 15),
        payment("pay4", "i1", "st1", 80_00, 31),
        payment("pay5", "i9", "st1", 160_00, 15),
    ];
    let stats = PaymentReminderQ.get_payment_stats(&payments, &invoices, "s1".to_string(), 10, 30);
    assert_eq!(stats.payments, 2);
    assert_eq!(stats.total_paid, 30_00);
    let none = PaymentReminderQ.get_payment_stats(&payments, &invoices, "s3".to_string(), 0, 100);
    assert_eq!((none.payments, none.total_paid), (0, 0));
}

#[test]
fn sequence_numbers_count_up_school_by_school() {
    let mut counters: Vec<Sequence> = Vec::new();
    assert_eq!(next_invoice_seq(&mut counters, "s1".to_string()).unwrap(), 1);
    assert_eq!(next_invoice_seq(&mut counters, "s1".to_string()).unwrap(), 2);
    assert_eq!(next_invoice_seq(&mut counters, "s2".to_string()).unwrap(), 1);
    assert_eq!(next_invoice_seq(&mut counters, "s1".to_string()).unwrap(), 3);
    assert_eq!(next_invoice_seq(&mut counters, "s2".to_string()).unwrap(), 2);
    assert_eq!(counters.len(), 2);
    assert_eq!(counters[0].school_id.key, "s1");
    assert_eq!(counters[0].school_id.table, Table::Schools);
    assert_eq!(counters[0].last, 3);
    assert_eq!(counters[1].last, 2);
    let mut receipts: Vec<Sequence> = Vec::new();
    assert_eq!(next_receipt_seq(&mut receipts, "s1".to_string()).unwrap(), 1);
    assert_eq!(next_receipt_seq(&mut receipts, "s1".to_string()).unwrap(), 2);
    assert_eq!(counters[0].last, 3);
    assert_eq!(next_seq(&mut receipts, "s3".to_string()).unwrap(), 1);
    assert_eq!(receipts.len(), 2);
}

#[test]
fn no_sequence_number_is_handed_out_twice() {
    let mut counters: Vec<Sequence> = Vec::new();
    let mut seen = Vec::new();
    for _ in 0..50 {
        let n = next_invoice_seq(&mut counters, "s1".to_string()).unwrap();
        assert!(seen.iter().all(|m| *m < n));
        seen.push(n);
    }
    assert_eq!(seen[49], 50);
}

#[test]
fn a_counter_that_cannot_go_higher_stays() {
    let mut counters = vec![
        Sequence { school_id: rid(Table::Schools, "s1"), last: u64::MAX },
        Sequence { school_id: rid(Table::Schools, "s2"), last: u64::MAX - 1 },
    ];
    let r = next_invoice_seq(&mut counters, "s1".to_string());
    assert!(matches!(r, Err(Error::SurrealDb(ref why)) if why == "number out of range"));
    assert_eq!(counters[0].last, u64::MAX);
    assert_eq!(next_invoice_seq(&mut counters, "s2".to_string()).unwrap(), u64::MAX);
    assert!(next_invoice_seq(&mut counters, "s2".to_string()).is_err());
    assert_eq!(counters[1].last, u64::MAX);
    assert_eq!(counters.len(), 2);
}
