//! The plain values that records are made of: table names, record identities,
//! instants and fixed-point numbers.

use vstd::prelude::*;
use crate::text::str_eq;

verus! {

/// An instant, in seconds since 1970-01-01T00:00:00Z. A calendar date is the
/// instant at which that day starts in UTC.
pub type Datetime = i64;

/// A fixed-point number in hundredths: money in minor units, scores in
/// hundredths of a mark, percentages in hundredths of a percent.
pub type Decimal = i64;

/// A sum of fixed-point numbers, in hundredths: wide enough for the sum over
/// any table.
pub type Total = i128;

/// Seconds in one day.
pub const SECONDS_PER_DAY: i64 = 86_400;

/// The tables of the store.
#[derive(Debug, Clone, Copy, PartialEq, Eq, Structural)]
pub enum Table {
    Schools,
    Users,
    Students,
    Parents,
    StudentParents,
    AcademicSessions,
    Terms,
    Classes,
    Subjects,
    ClassSubjects,
    Assessments,
    StudentScores,
    GradingSchemes,
    ReportCards,
    ReportCardScores,
    Attendance,
    AttendanceSummary,
    Announcements,
    Messages,
    Events,
    EventRsvps,
    Notifications,
    SmsLog,
    FeeStructures,
    Invoices,
    InvoiceItems,
    Payments,
    PaymentReminders,
    ActivityLogs,
    SchoolSettings,
    ReportCardTemplates,
}

impl Table {
    /// The name that the store knows the table by.
    pub open spec fn name(&self) -> Seq<char> {
        match self {
            Table::Schools => "schools"@,
            Table::Users => "users"@,
            Table::Students => "students"@,
            Table::Parents => "parents"@,
            Table::StudentParents => "student_parents"@,
            Table::AcademicSessions => "academic_sessions"@,
            Table::Terms => "terms"@,
            Table::Classes => "classes"@,
            Table::Subjects => "subjects"@,
            Table::ClassSubjects => "class_subjects"@,
            Table::Assessments => "assessments"@,
            Table::StudentScores => "student_scores"@,
            Table::GradingSchemes => "grading_schemes"@,
            Table::ReportCards => "report_cards"@,
            Table::ReportCardScores => "report_card_scores"@,
            Table::Attendance => "attendance"@,
            Table::AttendanceSummary => "attendance_summary"@,
            Table::Announcements => "announcements"@,
            Table::Messages => "messages"@,
            Table::Events => "events"@,
            Table::EventRsvps => "event_rsvps"@,
            Table::Notifications => "notifications"@,
            Table::SmsLog => "sms_log"@,
            Table::FeeStructures => "fee_structures"@,
            Table::Invoices => "invoices"@,
            Table::InvoiceItems => "invoice_items"@,
            Table::Payments => "payments"@,
            Table::PaymentReminders => "payment_reminders"@,
            Table::ActivityLogs => "activity_logs"@,
            Table::SchoolSettings => "school_settings"@,
            Table::ReportCardTemplates => "report_card_templates"@,
        }
    }

    /// The name that the store knows the table by.
    pub fn as_str(&self) -> (r: &'static str)
        ensures
            r@ == self.name(),
    {
        match self {
            Table::Schools => "schools",
            Table::Users => "users",
            Table::Students => "students",
            Table::Parents => "parents",
            Table::StudentParents => "student_parents",
            Table::AcademicSessions => "academic_sessions",
            Table::Terms => "terms",
            Table::Classes => "classes",
            Table::Subjects => "subjects",
            Table::ClassSubjects => "class_subjects",
            Table::Assessments => "assessments",
            Table::StudentScores => "student_scores",
            Table::GradingSchemes => "grading_schemes",
            Table::ReportCards => "report_cards",
            Table::ReportCardScores => "report_card_scores",
            Table::Attendance => "attendance",
            Table::AttendanceSummary => "attendance_summary",
            Table::Announcements => "announcements",
            Table::Messages => "messages",
            Table::Events => "events",
            Table::EventRsvps => "event_rsvps",
            Table::Notifications => "notifications",
            Table::SmsLog => "sms_log",
            Table::FeeStructures => "fee_structures",
            Table::Invoices => "invoices",
            Table::InvoiceItems => "invoice_items",
            Table::Payments => "payments",
            Table::PaymentReminders => "payment_reminders",
            Table::ActivityLogs => "activity_logs",
            Table::SchoolSettings => "school_settings",
            Table::ReportCardTemplates => "report_card_templates",
        }
    }

    /// The table that the store knows by a name, if it knows one by it.
    pub fn from_name(name: &str) -> (r: Option<Self>)
        ensures
            match r {
                Some(v) => v.name() == name@,
                None => forall|v: Self| v.name() != name@,
            },
    {
        if str_eq(name, "schools") {
            Some(Table::Schools)
        } else if str_eq(name, "users") {
            Some(Table::Users)
        } else if str_eq(name, "students") {
            Some(Table::Students)
        } else if str_eq(name, "parents") {
            Some(Table::Parents)
        } else if str_eq(name, "student_parents") {
            Some(Table::StudentParents)
        } else if str_eq(name, "academic_sessions") {
            Some(Table::AcademicSessions)
        } else if str_eq(name, "terms") {
            Some(Table::Terms)
        } else if str_eq(name, "classes") {
            Some(Table::Classes)
        } else if str_eq(name, "subjects") {
            Some(Table::Subjects)
        } else if str_eq(name, "class_subjects") {
            Some(Table::ClassSubjects)
        } else if str_eq(name, "assessments") {
            Some(Table::Assessments)
        } else if str_eq(name, "student_scores") {
            Some(Table::StudentScores)
        } else if str_eq(name, "grading_schemes") {
            Some(Table::GradingSchemes)
        } else if str_eq(name, "report_cards") {
            Some(Table::ReportCards)
        } else if str_eq(name, "report_card_scores") {
            Some(Table::ReportCardScores)
        } else if str_eq(name, "attendance") {
            Some(Table::Attendance)
        } else if str_eq(name, "attendance_summary") {
            Some(Table::AttendanceSummary)
        } else if str_eq(name, "announcements") {
            Some(Table::Announcements)
        } else if str_eq(name, "messages") {
            Some(Table::Messages)
        } else if str_eq(name, "events") {
            Some(Table::Events)
        } else if str_eq(name, "event_rsvps") {
            Some(Table::EventRsvps)
        } else if str_eq(name, "notifications") {
            Some(Table::Notifications)
        } else if str_eq(name, "sms_log") {
            Some(Table::SmsLog)
        } else if str_eq(name, "fee_structures") {
            Some(Table::FeeStructures)
        } else if str_eq(name, "invoices") {
            Some(Table::Invoices)
        } else if str_eq(name, "invoice_items") {
            Some(Table::InvoiceItems)
        } else if str_eq(name, "payments") {
            Some(Table::Payments)
        } else if str_eq(name, "payment_reminders") {
            Some(Table::PaymentReminders)
        } else if str_eq(name, "activity_logs") {
            Some(Table::ActivityLogs)
        } else if str_eq(name, "school_settings") {
            Some(Table::SchoolSettings)
        } else if str_eq(name, "report_card_templates") {
            Some(Table::ReportCardTemplates)
        } else {
            None
        }
    }

    /// No two tables are known by one name.
    pub proof fn law_names_differ(a: Self, b: Self)
        requires
            a.name() == b.name(),
        ensures
            a == b,
    {
        reveal_strlit("schools");
        reveal_strlit("users");
        reveal_strlit("students");
        reveal_strlit("parents");
        reveal_strlit("student_parents");
        reveal_strlit("academic_sessions");
        reveal_strlit("terms");
        reveal_strlit("classes");
        reveal_strlit("subjects");
        reveal_strlit("class_subjects");
        reveal_strlit("assessments");
        reveal_strlit("student_scores");
        reveal_strlit("grading_schemes");
        reveal_strlit("report_cards");
        reveal_strlit("report_card_scores");
        reveal_strlit("attendance");
        reveal_strlit("attendance_summary");
        reveal_strlit("announcements");
        reveal_strlit("messages");
        reveal_strlit("events");
        reveal_strlit("event_rsvps");
        reveal_strlit("notifications");
        reveal_strlit("sms_log");
        reveal_strlit("fee_structures");
        reveal_strlit("invoices");
        reveal_strlit("invoice_items");
        reveal_strlit("payments");
        reveal_strlit("payment_reminders");
        reveal_strlit("activity_logs");
        reveal_strlit("school_settings");
        reveal_strlit("report_card_templates");
        assert(Table::Schools.name().len() == 7
            && Table::Schools.name()[0] == 's'
            && Table::Schools.name()[1] == 'c');
        assert(Table::Users.name().len() == 5
            && Table::Users.name()[0] == 'u'
            && Table::Users.name()[1] == 's');
        assert(Table::Students.name().len() == 8
            && Table::Students.name()[0] == 's'
            && Table::Students.name()[1] == 't');
        assert(Table::Parents.name().len() == 7
            && Table::Parents.name()[0] == 'p'
            && Table::Parents.name()[1] == 'a');
        assert(Table::StudentParents.name().len() == 15
            && Table::StudentParents.name()[0] == 's'
            && Table::StudentParents.name()[1] == 't');
        assert(Table::AcademicSessions.name().len() == 17
            && Table::AcademicSessions.name()[0] == 'a'
            && Table::AcademicSessions.name()[1] == 'c');
        assert(Table::Terms.name().len() == 5
            && Table::Terms.name()[0] == 't'
            && Table::Terms.name()[1] == 'e');
        assert(Table::Classes.name().len() == 7
            && Table::Classes.name()[0] == 'c'
            && Table::Classes.name()[1] == 'l');
        assert(Table::Subjects.name().len() == 8
            && Table::Subjects.name()[0] == 's'
            && Table::Subjects.name()[1] == 'u');
        assert(Table::ClassSubjects.name().len() == 14
            && Table::ClassSubjects.name()[0] == 'c'
            && Table::ClassSubjects.name()[1] == 'l');
        assert(Table::Assessments.name().len() == 11
            && Table::Assessments.name()[0] == 'a'
            && Table::Assessments.name()[1] == 's');
        assert(Table::StudentScores.name().len() == 14
            && Table::StudentScores.name()[0] == 's'
            && Table::StudentScores.name()[1] == 't');
        assert(Table::GradingSchemes.name().len() == 15
            && Table::GradingSchemes.name()[0] == 'g'
            && Table::GradingSchemes.name()[1] == 'r');
        assert(Table::ReportCards.name().len() == 12
            && Table::ReportCards.name()[0] == 'r'
            && Table::ReportCards.name()[1] == 'e');
        assert(Table::ReportCardScores.name().len() == 18
            && Table::ReportCardScores.name()[0] == 'r'
            && Table::ReportCardScores.name()[1] == 'e');
        assert(Table::Attendance.name().len() == 10
            && Table::Attendance.name()[0] == 'a'
            && Table::Attendance.name()[1] == 't');
        assert(Table::AttendanceSummary.name().len() == 18
            && Table::AttendanceSummary.name()[0] == 'a'
            && Table::AttendanceSummary.name()[1] == 't');
        assert(Table::Announcements.name().len() == 13
            && Table::Announcements.name()[0] == 'a'
            && Table::Announcements.name()[1] == 'n');
        assert(Table::Messages.name().len() == 8
            && Table::Messages.name()[0] == 'm'
            && Table::Messages.name()[1] == 'e');
        assert(Table::Events.name().len() == 6
            && Table::Events.name()[0] == 'e'
            && Table::Events.name()[1] == 'v');
        assert(Table::EventRsvps.name().len() == 11
            && Table::EventRsvps.name()[0] == 'e'
            && Table::EventRsvps.name()[1] == 'v');
        assert(Table::Notifications.name().len() == 13
            && Table::Notifications.name()[0] == 'n'
            && Table::Notifications.name()[1] == 'o');
        assert(Table::SmsLog.name().len() == 7
            && Table::SmsLog.name()[0] == 's'
            && Table::SmsLog.name()[1] == 'm');
        assert(Table::FeeStructures.name().len() == 14
            && Table::FeeStructures.name()[0] == 'f'
            && Table::FeeStructures.name()[1] == 'e');
        assert(Table::Invoices.name().len() == 8
            && Table::Invoices.name()[0] == 'i'
            && Table::Invoices.name()[1] == 'n');
        assert(Table::InvoiceItems.name().len() == 13
            && Table::InvoiceItems.name()[0] == 'i'
            && Table::InvoiceItems.name()[1] == 'n');
        assert(Table::Payments.name().len() == 8
            && Table::Payments.name()[0] == 'p'
            && Table::Payments.name()[1] == 'a');
        assert(Table::PaymentReminders.name().len() == 17
            && Table::PaymentReminders.name()[0] == 'p'
            && Table::PaymentReminders.name()[1] == 'a');
        assert(Table::ActivityLogs.name().len() == 13
            && Table::ActivityLogs.name()[0] == 'a'
            && Table::ActivityLogs.name()[1] == 'c');
        assert(Table::SchoolSettings.name().len() == 15
            && Table::SchoolSettings.name()[0] == 's'
            && Table::SchoolSettings.name()[1] == 'c');
        assert(Table::ReportCardTemplates.name().len() == 21
            && Table::ReportCardTemplates.name()[0] == 'r'
            && Table::ReportCardTemplates.name()[1] == 'e');
    }
}

/// The identity of a record: the table it lives in and its key there.
#[derive(Debug)]
pub struct RecordId {
    pub table: Table,
    pub key: String,
}

impl Clone for RecordId {
    fn clone(&self) -> (r: Self)
        ensures
            r == *self,
    {
        RecordId { table: self.table, key: self.key.clone() }
    }
}

impl RecordId {
    /// Whether this identity names the record `key` of `table`.
    pub open spec fn names(&self, table: Table, key: Seq<char>) -> bool {
        self.table == table && self.key@ == key
    }

    /// The identity of the record `key` of `table`.
    pub fn new(table: Table, key: String) -> (r: Self)
        ensures
            r.table == table,
            r.key == key,
    {
        RecordId { table, key }
    }

    /// Tests whether this identity names the record `key` of `table`.
    pub fn is(&self, table: Table, key: &String) -> (r: bool)
        ensures
            r == self.names(table, key@),
    {
        self.table == table && self.key == *key
    }

    /// Tests whether two identities name the same record.
    pub fn same(&self, other: &RecordId) -> (r: bool)
        ensures
            r == self.names(other.table, other.key@),
    {
        self.table == other.table && self.key == other.key
    }
}

/// Whether an optional identity is present and names the record `key` of `table`.
pub open spec fn is_named(id: Option<RecordId>, table: Table, key: Seq<char>) -> bool {
    match id {
        Some(rid) => rid.names(table, key),
        None => false,
    }
}

/// Tests whether an optional identity is present and names the record `key` of `table`.
pub fn id_is(id: &Option<RecordId>, table: Table, key: &String) -> (r: bool)
    ensures
        r == is_named(*id, table, key@),
{
    match id {
        Some(rid) => rid.is(table, key),
        None => false,
    }
}


/// Whether an optional identity is present and names a record of `table`
/// under one of the keys.
pub open spec fn is_among(id: Option<RecordId>, table: Table, keys: Seq<String>) -> bool {
    exists|k: int| 0 <= k < keys.len() && is_named(id, table, (#[trigger] keys[k])@)
}

/// Tests whether an optional identity is present and names a record of
/// `table` under one of the keys.
pub fn id_among(id: &Option<RecordId>, table: Table, keys: &Vec<String>) -> (r: bool)
    ensures
        r == is_among(*id, table, keys@),
{
    let mut k: usize = 0;
    while k < keys.len()
        invariant
            k <= keys.len(),
            forall|j: int| 0 <= j < k ==> !is_named(*id, table, (#[trigger] keys@[j])@),
        decreases keys.len() - k,
    {
        if id_is(id, table, &keys[k]) {
            return true;
        }
        k += 1;
    }
    false
}

/// Whether `a` is earlier than `b`, where no date counts as earlier than any date.
pub open spec fn earlier(a: Option<Datetime>, b: Option<Datetime>) -> bool {
    match (a, b) {
        (None, Some(_)) => true,
        (Some(x), Some(y)) => x < y,
        _ => false,
    }
}

/// Tests whether `a` is earlier than `b`, where no date counts as earlier than any date.
pub fn is_earlier(a: Option<Datetime>, b: Option<Datetime>) -> (r: bool)
    ensures
        r == earlier(a, b),
{
    match (a, b) {
        (None, Some(_)) => true,
        (Some(x), Some(y)) => x < y,
        _ => false,
    }
}

/// Whether `a` is higher than `b`, where any number counts as higher than none.
pub open spec fn higher(a: Option<Decimal>, b: Option<Decimal>) -> bool {
    match (a, b) {
        (Some(_), None) => true,
        (Some(x), Some(y)) => x > y,
        _ => false,
    }
}

/// Tests whether `a` is higher than `b`, where any number counts as higher than none.
pub fn is_higher(a: Option<Decimal>, b: Option<Decimal>) -> (r: bool)
    ensures
        r == higher(a, b),
{
    match (a, b) {
        (Some(_), None) => true,
        (Some(x), Some(y)) => x > y,
        _ => false,
    }
}

/// Where a number stands among numbers that may be lacking: a number
/// stands by itself, and none stands below all.
pub open spec fn standing(a: Option<i64>) -> int {
    match a {
        Some(x) => x as int,
        None => i64::MIN - 1,
    }
}

/// The quotient of `a` by `b`, rounded towards zero; `b` is not zero.
pub open spec fn quotient(a: int, b: int) -> int {
    if a >= 0 && b > 0 {
        a / b
    } else if a < 0 && b < 0 {
        (-a) / (-b)
    } else if a < 0 {
        -((-a) / b)
    } else {
        -(a / (-b))
    }
}

/// The mean of `n` numbers that sum to `sum`, rounded towards zero.
pub fn mean(sum: Total, n: usize) -> (r: Decimal)
    requires
        n > 0,
        n * (i64::MIN as int) <= sum <= n * (i64::MAX as int),
    ensures
        r == quotient(sum as int, n as int),
{
    let d: u128 = n as u128;
    if sum >= 0 {
        let q: u128 = (sum as u128) / d;
        assert(q <= 0x7fff_ffff_ffff_ffff) by (nonlinear_arith)
            requires
                q == (sum as u128) / d,
                d >= 1,
                sum as u128 <= d * 0x7fff_ffff_ffff_ffff,
        ;
        q as i64
    } else {
        let q: u128 = ((-sum) as u128) / d;
        assert(q <= 0x8000_0000_0000_0000) by (nonlinear_arith)
            requires
                q == ((-sum) as u128) / d,
                d >= 1,
                (-sum) as u128 <= d * 0x8000_0000_0000_0000,
        ;
        (-(q as i128)) as i64
    }
}

} // verus!
