//! Assessments, scores, grading tables and report cards.

use vstd::prelude::*;
use crate::models::AssessmentType;
use crate::table::Record;
use crate::values::Datetime;
use crate::values::Decimal;
use crate::values::RecordId;

verus! {

/// A test, examination or assignment set for a class in a subject and a term.
#[derive(Debug)]
pub struct Assessment {
    pub id: Option<RecordId>,
    pub school_id: RecordId,
    pub class_id: RecordId,
    pub subject_id: RecordId,
    pub term_id: RecordId,
    pub assessment_type: AssessmentType,
    pub assessment_name: Option<String>,
    pub max_score: Decimal,
    pub assessment_date: Option<Datetime>,
    pub created_by: Option<RecordId>,
    pub created_at: Datetime,
    pub updated_at: Datetime,
}

impl Clone for Assessment {
    fn clone(&self) -> (r: Self)
        ensures
            r == *self,
    {
        Assessment {
            id: self.id.clone(),
            school_id: self.school_id.clone(),
            class_id: self.class_id.clone(),
            subject_id: self.subject_id.clone(),
            term_id: self.term_id.clone(),
            assessment_type: self.assessment_type,
            assessment_name: self.assessment_name.clone(),
            max_score: self.max_score,
            assessment_date: self.assessment_date,
            created_by: self.created_by.clone(),
            created_at: self.created_at,
            updated_at: self.updated_at,
        }
    }
}

impl Record for Assessment {
    open spec fn record_id(&self) -> Option<RecordId> {
        self.id
    }

    fn id(&self) -> (r: &Option<RecordId>) {
        &self.id
    }

    fn duplicate(&self) -> (r: Self) {
        self.clone()
    }

    open spec fn filed(self, id: RecordId) -> Self {
        Assessment { id: Some(id), ..self }
    }

    fn file_under(self, id: RecordId) -> (r: Self) {
        let mut r = self;
        r.id = Some(id);
        r
    }
}

/// What a student obtained in an assessment.
#[derive(Debug)]
pub struct StudentScore {
    pub id: Option<RecordId>,
    pub assessment_id: RecordId,
    pub student_id: RecordId,
    pub score_obtained: Option<Decimal>,
    pub remarks: Option<String>,
    pub entered_by: Option<RecordId>,
    pub entered_at: Datetime,
    pub updated_at: Datetime,
    pub verified: bool,
    pub verified_by: Option<RecordId>,
    pub verified_at: Option<Datetime>,
}

impl Clone for StudentScore {
    fn clone(&self) -> (r: Self)
        ensures
            r == *self,
    {
        StudentScore {
            id: self.id.clone(),
            assessment_id: self.assessment_id.clone(),
            student_id: self.student_id.clone(),
            score_obtained: self.score_obtained,
            remarks: self.remarks.clone(),
            entered_by: self.entered_by.clone(),
            entered_at: self.entered_at,
            updated_at: self.updated_at,
            verified: self.verified,
            verified_by: self.verified_by.clone(),
            verified_at: self.verified_at,
        }
    }
}

impl Record for StudentScore {
    open spec fn record_id(&self) -> Option<RecordId> {
        self.id
    }

    fn id(&self) -> (r: &Option<RecordId>) {
        &self.id
    }

    fn duplicate(&self) -> (r: Self) {
        self.clone()
    }

    open spec fn filed(self, id: RecordId) -> Self {
        StudentScore { id: Some(id), ..self }
    }

    fn file_under(self, id: RecordId) -> (r: Self) {
        let mut r = self;
        r.id = Some(id);
        r
    }
}

/// One range of a school's grading table: the scores from `min_score` to
/// `max_score`, both included, earn `grade`.
#[derive(Debug)]
pub struct GradingScheme {
    pub id: Option<RecordId>,
    pub school_id: RecordId,
    pub scheme_name: Option<String>,
    pub min_score: Decimal,
    pub max_score: Decimal,
    pub grade: String,
    pub grade_point: Decimal,
    pub remark: Option<String>,
    pub created_at: Datetime,
}

impl Clone for GradingScheme {
    fn clone(&self) -> (r: Self)
        ensures
            r == *self,
    {
        GradingScheme {
            id: self.id.clone(),
            school_id: self.school_id.clone(),
            scheme_name: self.scheme_name.clone(),
            min_score: self.min_score,
            max_score: self.max_score,
            grade: self.grade.clone(),
            grade_point: self.grade_point,
            remark: self.remark.clone(),
            created_at: self.created_at,
        }
    }
}

impl Record for GradingScheme {
    open spec fn record_id(&self) -> Option<RecordId> {
        self.id
    }

    fn id(&self) -> (r: &Option<RecordId>) {
        &self.id
    }

    fn duplicate(&self) -> (r: Self) {
        self.clone()
    }

    open spec fn filed(self, id: RecordId) -> Self {
        GradingScheme { id: Some(id), ..self }
    }

    fn file_under(self, id: RecordId) -> (r: Self) {
        let mut r = self;
        r.id = Some(id);
        r
    }
}

/// The rollup of a student's term.
#[derive(Debug)]
pub struct ReportCard {
    pub id: Option<RecordId>,
    pub student_id: RecordId,
    pub class_id: RecordId,
    pub term_id: RecordId,
    pub total_score: Option<Decimal>,
    pub average_percentage: Option<Decimal>,
    pub class_position: Option<i32>,
    pub total_students_in_class: Option<i32>,
    pub class_average: Option<Decimal>,
    pub attendance_present: Option<i32>,
    pub attendance_absent: Option<i32>,
    pub attendance_late: Option<i32>,
    pub times_school_opened: Option<i32>,
    pub teacher_comment: Option<String>,
    pub principal_comment: Option<String>,
    pub next_term_begins: Option<Datetime>,
    pub generated_by: Option<RecordId>,
    pub generated_at: Datetime,
    pub published: bool,
    pub published_at: Option<Datetime>,
    pub pdf_url: Option<String>,
    pub created_at: Datetime,
}

impl Clone for ReportCard {
    fn clone(&self) -> (r: Self)
        ensures
            r == *self,
    {
        ReportCard {
            id: self.id.clone(),
            student_id: self.student_id.clone(),
            class_id: self.class_id.clone(),
            term_id: self.term_id.clone(),
            total_score: self.total_score,
            average_percentage: self.average_percentage,
            class_position: self.class_position,
            total_students_in_class: self.total_students_in_class,
            class_average: self.class_average,
            attendance_present: self.attendance_present,
            attendance_absent: self.attendance_absent,
            attendance_late: self.attendance_late,
            times_school_opened: self.times_school_opened,
            teacher_comment: self.teacher_comment.clone(),
            principal_comment: self.principal_comment.clone(),
            next_term_begins: self.next_term_begins,
            generated_by: self.generated_by.clone(),
            generated_at: self.generated_at,
            published: self.published,
            published_at: self.published_at,
            pdf_url: self.pdf_url.clone(),
            created_at: self.created_at,
        }
    }
}

impl Record for ReportCard {
    open spec fn record_id(&self) -> Option<RecordId> {
        self.id
    }

    fn id(&self) -> (r: &Option<RecordId>) {
        &self.id
    }

    fn duplicate(&self) -> (r: Self) {
        self.clone()
    }

    open spec fn filed(self, id: RecordId) -> Self {
        ReportCard { id: Some(id), ..self }
    }

    fn file_under(self, id: RecordId) -> (r: Self) {
        let mut r = self;
        r.id = Some(id);
        r
    }
}

/// One subject line of a report card.
#[derive(Debug)]
pub struct ReportCardScore {
    pub id: Option<RecordId>,
    pub report_card_id: RecordId,
    pub subject_id: RecordId,
    pub ca_score: Option<Decimal>,
    pub exam_score: Option<Decimal>,
    pub total_score: Option<Decimal>,
    pub grade: Option<String>,
    pub subject_position: Option<i32>,
    pub subject_high_score: Option<Decimal>,
    pub subject_low_score: Option<Decimal>,
    pub subject_average: Option<Decimal>,
    pub remarks: Option<String>,
}

impl Clone for ReportCardScore {
    fn clone(&self) -> (r: Self)
        ensures
            r == *self,
    {
        ReportCardScore {
            id: self.id.clone(),
            report_card_id: self.report_card_id.clone(),
            subject_id: self.subject_id.clone(),
            ca_score: self.ca_score,
            exam_score: self.exam_score,
            total_score: self.total_score,
            grade: self.grade.clone(),
            subject_position: self.subject_position,
            subject_high_score: self.subject_high_score,
            subject_low_score: self.subject_low_score,
            subject_average: self.subject_average,
            remarks: self.remarks.clone(),
        }
    }
}

impl Record for ReportCardScore {
    open spec fn record_id(&self) -> Option<RecordId> {
        self.id
    }

    fn id(&self) -> (r: &Option<RecordId>) {
        &self.id
    }

    fn duplicate(&self) -> (r: Self) {
        self.clone()
    }

    open spec fn filed(self, id: RecordId) -> Self {
        ReportCardScore { id: Some(id), ..self }
    }

    fn file_under(self, id: RecordId) -> (r: Self) {
        let mut r = self;
        r.id = Some(id);
        r
    }
}

} // verus!
