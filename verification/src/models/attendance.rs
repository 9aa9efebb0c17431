//! Daily attendance and its rollup by term.

use vstd::prelude::*;
use crate::models::AttendanceStatus;
use crate::table::Record;
use crate::values::Datetime;
use crate::values::Decimal;
use crate::values::RecordId;

verus! {

/// A student's attendance on one day.
#[derive(Debug)]
pub struct Attendance {
    pub id: Option<RecordId>,
    pub student_id: RecordId,
    pub class_id: RecordId,
    pub date: Datetime,
    pub status: AttendanceStatus,
    pub arrival_time: Option<String>,
    pub reason: Option<String>,
    pub marked_by: Option<RecordId>,
    pub marked_at: Datetime,
    pub updated_at: Datetime,
}

impl Clone for Attendance {
    fn clone(&self) -> (r: Self)
        ensures
            r == *self,
    {
        Attendance {
            id: self.id.clone(),
            student_id: self.student_id.clone(),
            class_id: self.class_id.clone(),
            date: self.date,
            status: self.status,
            arrival_time: self.arrival_time.clone(),
            reason: self.reason.clone(),
            marked_by: self.marked_by.clone(),
            marked_at: self.marked_at,
            updated_at: self.updated_at,
        }
    }
}

impl Record for Attendance {
    open spec fn record_id(&self) -> Option<RecordId> {
        self.id
    }

    fn id(&self) -> (r: &Option<RecordId>) {
        &self.id
    }

    fn duplicate(&self) -> (r: Self) {
        self.clone()
    }

    open spec fn filed(self, id: RecordId) -> Self {
        Attendance { id: Some(id), ..self }
    }

    fn file_under(self, id: RecordId) -> (r: Self) {
        let mut r = self;
        r.id = Some(id);
        r
    }
}

/// The attendance of a student over a term, counted.
#[derive(Debug)]
pub struct AttendanceSummary {
    pub id: Option<RecordId>,
    pub student_id: RecordId,
    pub term_id: RecordId,
    pub total_present: i32,
    pub total_absent: i32,
    pub total_late: i32,
    pub total_excused: i32,
    pub attendance_percentage: Decimal,
    pub updated_at: Datetime,
}

impl Clone for AttendanceSummary {
    fn clone(&self) -> (r: Self)
        ensures
            r == *self,
    {
        AttendanceSummary {
            id: self.id.clone(),
            student_id: self.student_id.clone(),
            term_id: self.term_id.clone(),
            total_present: self.total_present,
            total_absent: self.total_absent,
            total_late: self.total_late,
            total_excused: self.total_excused,
            attendance_percentage: self.attendance_percentage,
            updated_at: self.updated_at,
        }
    }
}

impl Record for AttendanceSummary {
    open spec fn record_id(&self) -> Option<RecordId> {
        self.id
    }

    fn id(&self) -> (r: &Option<RecordId>) {
        &self.id
    }

    fn duplicate(&self) -> (r: Self) {
        self.clone()
    }

    open spec fn filed(self, id: RecordId) -> Self {
        AttendanceSummary { id: Some(id), ..self }
    }

    fn file_under(self, id: RecordId) -> (r: Self) {
        let mut r = self;
        r.id = Some(id);
        r
    }
}

} // verus!
