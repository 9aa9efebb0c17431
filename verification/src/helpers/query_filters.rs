//! Conditions that callers put on a listing.

use vstd::prelude::*;
use crate::models::AttendanceStatus;
use crate::models::InvoiceStatus;
use crate::models::StudentStatus;
use crate::values::Datetime;
use crate::values::RecordId;

verus! {

/// Conditions on students; an absent one admits all.
#[derive(Debug)]
pub struct StudentFilter {
    pub school_id: Option<RecordId>,
    pub class_id: Option<RecordId>,
    pub status: Option<StudentStatus>,
    pub search: Option<String>,
}

impl Clone for StudentFilter {
    fn clone(&self) -> (r: Self)
        ensures
            r == *self,
    {
        StudentFilter {
            school_id: self.school_id.clone(),
            class_id: self.class_id.clone(),
            status: self.status,
            search: self.search.clone(),
        }
    }
}

/// Conditions on invoices; an absent one admits all.
#[derive(Debug)]
pub struct InvoiceFilter {
    pub school_id: Option<RecordId>,
    pub student_id: Option<RecordId>,
    pub term_id: Option<RecordId>,
    pub status: Option<InvoiceStatus>,
}

impl Clone for InvoiceFilter {
    fn clone(&self) -> (r: Self)
        ensures
            r == *self,
    {
        InvoiceFilter {
            school_id: self.school_id.clone(),
            student_id: self.student_id.clone(),
            term_id: self.term_id.clone(),
            status: self.status,
        }
    }
}

/// Conditions on attendance records; an absent one admits all.
#[derive(Debug)]
pub struct AttendanceFilter {
    pub student_id: Option<RecordId>,
    pub class_id: Option<RecordId>,
    pub date_from: Option<Datetime>,
    pub date_to: Option<Datetime>,
    pub status: Option<AttendanceStatus>,
}

impl Clone for AttendanceFilter {
    fn clone(&self) -> (r: Self)
        ensures
            r == *self,
    {
        AttendanceFilter {
            student_id: self.student_id.clone(),
            class_id: self.class_id.clone(),
            date_from: self.date_from,
            date_to: self.date_to,
            status: self.status,
        }
    }
}

impl Default for StudentFilter {
    /// The filter that admits every record.
    fn default() -> (r: Self)
        ensures
            r.school_id is None,
            r.class_id is None,
            r.status is None,
            r.search is None,
    {
        StudentFilter {
            school_id: None,
            class_id: None,
            status: None,
            search: None,
        }
    }
}

impl Default for InvoiceFilter {
    /// The filter that admits every record.
    fn default() -> (r: Self)
        ensures
            r.school_id is None,
            r.student_id is None,
            r.term_id is None,
            r.status is None,
    {
        InvoiceFilter {
            school_id: None,
            student_id: None,
            term_id: None,
            status: None,
        }
    }
}

impl Default for AttendanceFilter {
    /// The filter that admits every record.
    fn default() -> (r: Self)
        ensures
            r.student_id is None,
            r.class_id is None,
            r.date_from is None,
            r.date_to is None,
            r.status is None,
    {
        AttendanceFilter {
            student_id: None,
            class_id: None,
            date_from: None,
            date_to: None,
            status: None,
        }
    }
}

} // verus!
