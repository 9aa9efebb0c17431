//! What the repositories answer where the answer is more than records.

use vstd::prelude::*;
use crate::models::academic::Class;
use crate::models::assessments_nd_grading::ReportCard;
use crate::models::assessments_nd_grading::ReportCardScore;
use crate::models::fee_management::Invoice;
use crate::models::fee_management::InvoiceItem;
use crate::models::Parent;
use crate::models::Student;
use crate::models::User;
use crate::values::Decimal;
use crate::values::Total;

verus! {

/// A student with the student's parents.
#[derive(Debug, Clone)]
pub struct StudentWithParents {
    pub student: Student,
    pub parents: Vec<Parent>,
}

/// A class with its class teacher.
#[derive(Debug, Clone)]
pub struct ClassWithTeacher {
    pub class: Class,
    pub teacher: Option<User>,
}

/// An invoice with its lines and the student it is for.
#[derive(Debug, Clone)]
pub struct InvoiceWithItems {
    pub invoice: Invoice,
    pub items: Vec<InvoiceItem>,
    pub student: Student,
}

/// A report card with its subject lines and the student it is for.
#[derive(Debug, Clone)]
pub struct ReportCardWithScores {
    pub report_card: ReportCard,
    pub scores: Vec<ReportCardScore>,
    pub student: Student,
}

/// The figures of a school's dashboard for one term.
#[derive(Debug, Clone, Copy, PartialEq, Eq, Structural)]
pub struct DashboardMetrics {
    pub total_students: i64,
    pub total_teachers: i64,
    pub total_classes: i64,
    pub total_collected: Decimal,
    pub total_expected: Decimal,
    pub collection_rate: Decimal,
}

/// What a school has invoiced and collected in a term.
#[derive(Debug, Clone, Copy, PartialEq, Eq, Structural)]
pub struct CollectionSummary {
    pub total_invoices: u64,
    pub total_expected: Total,
    pub total_collected: Total,
    pub total_outstanding: Total,
}

/// What the students of one class have been invoiced and have paid in a
/// term. `class_name` is absent in the row of the students without a class.
#[derive(Debug)]
pub struct ClassCollection {
    pub class_name: Option<String>,
    pub total_invoices: u64,
    pub total_collected: Total,
    pub total_outstanding: Total,
}

/// How many payments a school received in a span of time, and their sum.
#[derive(Debug, Clone, Copy, PartialEq, Eq, Structural)]
pub struct PaymentStats {
    pub payments: u64,
    pub total_paid: Total,
}

} // verus!
