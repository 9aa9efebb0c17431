use sms_db::error::Error;
use sms_db::helpers::generators::Sequence;
use sms_db::models::fee_management::FeeStructure;
use sms_db::models::fee_management::Invoice;
use sms_db::models::FeeFrequency;
use sms_db::models::FeeType;
use sms_db::models::Gender;
use sms_db::models::InvoiceStatus;
use sms_db::models::Student;
use sms_db::models::StudentStatus;
use sms_db::queries::bulk::BulkQ;
use sms_db::values::id_among;
use sms_db::values::RecordId;
use sms_db::values::Table;

fn rid(table: Table, key: &str) -> RecordId {
    RecordId { table, key: key.to_string() }
}

fn student(key: &str, school: &str, class: &str, status: StudentStatus) -> Student {
    Student {
        id: Some(rid(Table::Students, key)),
        school_id: rid(Table::Schools, school),
        admission_number: key.to_string(),
        first_name: "A".to_string(),
        middle_name: None,
        last_name: "B".to_string(),
        date_of_birth: 0,
        gender: Gender::Male,
        address: None,
        current_class_id: Some(rid(Table::Classes, class)),
        admission_date: 0,
        status,
        profile_photo_url: None,
        blood_group: None,
        genotype: None,
        medical_conditions: None,
        created_at: 0,
        updated_at: 0,
    }
}

fn fee(key: &str, school: &str, amount: i64) -> FeeStructure {
    FeeStructure {
        id: Some(rid(Table::FeeStructures, key)),
        school_id: rid(Table::Schools, school),
        fee_name: key.to_string(),
        fee_type: FeeType::Tuition,
        class_level: "all".to_string(),
        amount,
        frequency: FeeFrequency::PerTerm,
        session_id: None,
        is_mandatory: true,
        created_at: 0,
        updated_at: 0,
    }
}

fn earlier_invoice(key: &str, school: &str) -> Invoice {
    Invoice {
        id: Some(rid(Table::Invoices, key)),
        student_id: rid(Table::Students, "st0"),
        school_id: rid(Table::Schools, school),
        term_id: rid(Table::Terms, "t0"),
        invoice_number: "INV-2026-000001".to_string(),
        total_amount: 1,
        amount_paid: 0,
        balance: 1,
        discount_amount: 0,
        discount_reason: None,
        due_date: 0,
        status: InvoiceStatus::Unpaid,
        generated_by: None,
        generated_at: 0,
        created_at: 0,
        updated_at: 0,
    }
}

fn class_of_five() -> Vec<Student> {
    vec![
        student("st1", "s1", "c1", StudentStatus::Active),
        student("st2", "s1", "c1", StudentStatus::Active),
        student("st3", "s1", "c2", StudentStatus::Active),
        student("st4", "s2", "c1", StudentStatus::Active),
        student("st5", "s1", "c1", StudentStatus::Withdrawn),
    ]
}

fn listed() -> Vec<String> {
    vec!["f1".to_string(), "f2".to_string(), "f3".to_string()]
}

fn raise(
    invoices: &mut Vec<Invoice>,
    counters: &mut Vec<Sequence>,
    students: &Vec<Student>,
    fees: &Vec<FeeStructure>,
    class: &str,
    term: &str,
    ids: Vec<String>,
) -> Result<Vec<Invoice>, Error> {
    BulkQ::generate_class_invoices(invoices, counters, students, fees, class.to_string(), term.to_string(), ids, 2026, 500, 9)
}

#[test]
fn a_class_is_invoiced_student_by_student() {
    let students = class_of_five();
    let fees = vec![fee("f1", "s1", 100_00), fee("f2", "s1", 50_00), fee("f3", "s2", 70_00), fee("f4", "s1", 10_00)];
    let mut invoices = vec![earlier_invoice("i0", "s1")];
    let mut counters = vec![Sequence { school_id: rid(Table::Schools, "s1"), last: 1 }];
    let raised = raise(&mut invoices, &mut counters, &students, &fees, "c1", "t1", listed()).unwrap();
    assert_eq!(raised.len(), 3);
    assert_eq!(invoices.len(), 4);
    let seen: Vec<(String, String, i64, String)> = invoices[1..]
        .iter()
        .map(|v| (v.id.as_ref().unwrap().key.clone(), v.student_id.key.clone(), v.total_amount, v.invoice_number.clone()))
        .collect();
    assert_eq!(
        seen,
        vec![
            ("st1_t1".to_string(), "st1".to_string(), 150_00, "INV-2026-000002".to_string()),
            ("st2_t1".to_string(), "st2".to_string(), 150_00, "INV-2026-000003".to_string()),
            ("st4_t1".to_string(), "st4".to_string(), 70_00, "INV-2026-000001".to_string()),
        ]
    );
    for v in &raised {
        assert_eq!(v.balance, v.total_amount);
        assert_eq!(v.amount_paid, 0);
        assert_eq!(v.status, InvoiceStatus::Unpaid);
        assert_eq!(v.due_date, 500);
        assert_eq!(v.created_at, 9);
        assert_eq!(v.term_id.key, "t1");
        assert_eq!(v.id.as_ref().unwrap().table, Table::Invoices);
    }
    assert_eq!(raised[2].school_id.key, "s2");
    let counts: Vec<(String, u64)> = counters.iter().map(|c| (c.school_id.key.clone(), c.last)).collect();
    assert_eq!(counts, vec![("s1".to_string(), 3), ("s2".to_string(), 1)]);
}

#[test]
fn a_class_is_invoiced_once_for_a_term() {
    let students = class_of_five();
    let fees = vec![fee("f1", "s1", 100_00)];
    let mut invoices = Vec::new();
    let mut counters = Vec::new();
    raise(&mut invoices, &mut counters, &students, &fees, "c1", "t1", listed()).unwrap();
    assert_eq!(invoices.len(), 3);
    let again = raise(&mut invoices, &mut counters, &students, &fees, "c1", "t1", listed());
    assert!(matches!(again, Err(Error::Duplicate(ref k)) if k == "st1_t1"));
    assert_eq!(invoices.len(), 3);
    assert_eq!(counters[0].last, 2);
    assert_eq!(counters[1].last, 1);
    raise(&mut invoices, &mut counters, &students, &fees, "c1", "t2", listed()).unwrap();
    assert_eq!(invoices.len(), 6);
    assert_eq!(invoices[3].invoice_number, "INV-2026-000003");
    assert_eq!(invoices[5].invoice_number, "INV-2026-000002");
    invoices.remove(4);
    let part = raise(&mut invoices, &mut counters, &students, &fees, "c2", "t2", listed()).unwrap();
    assert_eq!(part.len(), 1);
    assert_eq!(part[0].invoice_number, "INV-2026-000005");
    let mut twice = class_of_five();
    twice[2] = student("st1", "s1", "c3", StudentStatus::Active);
    twice[4] = student("st1", "s1", "c3", StudentStatus::Active);
    let before = invoices.len();
    let clash = raise(&mut invoices, &mut counters, &twice, &fees, "c3", "t9", listed());
    assert!(matches!(clash, Err(Error::Duplicate(ref k)) if k == "st1_t9"));
    assert_eq!(invoices.len(), before);
    assert_eq!(counters[0].last, 5);
    assert_eq!(counters.len(), 2);
}

#[test]
fn an_invoice_that_cannot_hold_the_charges_is_not_raised() {
    let students = class_of_five();
    let fees = vec![fee("f1", "s1", i64::MAX), fee("f2", "s1", 1), fee("f3", "s2", 5)];
    let mut invoices = Vec::new();
    let mut counters = Vec::new();
    let r = raise(&mut invoices, &mut counters, &students, &fees, "c1", "t1", listed());
    assert!(matches!(r, Err(Error::SurrealDb(ref why)) if why == "number out of range"));
    assert!(invoices.is_empty());
    assert!(counters.is_empty());
    let none = raise(&mut invoices, &mut counters, &students, &fees, "c9", "t1", listed()).unwrap();
    assert!(none.is_empty());
    let free = raise(&mut invoices, &mut counters, &students, &fees, "c2", "t1", Vec::new()).unwrap();
    assert_eq!(free[0].total_amount, 0);
    assert_eq!(free[0].status, InvoiceStatus::Unpaid);
    assert_eq!(free[0].invoice_number, "INV-2026-000001");
}

#[test]
fn a_counter_at_its_end_raises_no_invoice() {
    let students = class_of_five();
    let fees = vec![fee("f1", "s1", 100_00)];
    let mut invoices = Vec::new();
    let mut counters = vec![
        Sequence { school_id: rid(Table::Schools, "s2"), last: 7 },
        Sequence { school_id: rid(Table::Schools, "s1"), last: u64::MAX - 1 },
    ];
    let r = raise(&mut invoices, &mut counters, &students, &fees, "c1", "t1", listed());
    assert!(matches!(r, Err(Error::SurrealDb(ref why)) if why == "number out of range"));
    assert!(invoices.is_empty());
    assert_eq!(counters[1].last, u64::MAX - 1);
    assert_eq!(counters[0].last, 7);
}

#[test]
fn an_identity_is_looked_up_among_keys() {
    let keys = listed();
    assert!(id_among(&Some(rid(Table::FeeStructures, "f2")), Table::FeeStructures, &keys));
    assert!(!id_among(&Some(rid(Table::FeeStructures, "f4")), Table::FeeStructures, &keys));
    assert!(!id_among(&Some(rid(Table::Invoices, "f2")), Table::FeeStructures, &keys));
    assert!(!id_among(&None, Table::FeeStructures, &keys));
    assert!(!id_among(&Some(rid(Table::FeeStructures, "f2")), Table::FeeStructures, &Vec::new()));
}
