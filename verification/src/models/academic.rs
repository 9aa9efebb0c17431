//! Sessions, terms, classes and subjects.

use vstd::prelude::*;
use crate::models::ClassLevel;
use crate::models::SubjectType;
use crate::table::Record;
use crate::values::Datetime;
use crate::values::RecordId;

verus! {

/// An academic year of a school.
#[derive(Debug)]
pub struct AcademicSession {
    pub id: Option<RecordId>,
    pub school_id: RecordId,
    pub session_name: String,
    pub start_date: Datetime,
    pub end_date: Datetime,
    pub is_current: bool,
    pub created_at: Datetime,
}

impl Clone for AcademicSession {
    fn clone(&self) -> (r: Self)
        ensures
            r == *self,
    {
        AcademicSession {
            id: self.id.clone(),
            school_id: self.school_id.clone(),
            session_name: self.session_name.clone(),
            start_date: self.start_date,
            end_date: self.end_date,
            is_current: self.is_current,
            created_at: self.created_at,
        }
    }
}

impl Record for AcademicSession {
    open spec fn record_id(&self) -> Option<RecordId> {
        self.id
    }

    fn id(&self) -> (r: &Option<RecordId>) {
        &self.id
    }

    fn duplicate(&self) -> (r: Self) {
        self.clone()
    }

    open spec fn filed(self, id: RecordId) -> Self {
        AcademicSession { id: Some(id), ..self }
    }

    fn file_under(self, id: RecordId) -> (r: Self) {
        let mut r = self;
        r.id = Some(id);
        r
    }
}

/// A term of an academic session.
#[derive(Debug)]
pub struct Term {
    pub id: Option<RecordId>,
    pub session_id: RecordId,
    pub term_number: i32,
    pub term_name: Option<String>,
    pub start_date: Datetime,
    pub end_date: Datetime,
    pub is_current: bool,
    pub created_at: Datetime,
}

impl Clone for Term {
    fn clone(&self) -> (r: Self)
        ensures
            r == *self,
    {
        Term {
            id: self.id.clone(),
            session_id: self.session_id.clone(),
            term_number: self.term_number,
            term_name: self.term_name.clone(),
            start_date: self.start_date,
            end_date: self.end_date,
            is_current: self.is_current,
            created_at: self.created_at,
        }
    }
}

impl Record for Term {
    open spec fn record_id(&self) -> Option<RecordId> {
        self.id
    }

    fn id(&self) -> (r: &Option<RecordId>) {
        &self.id
    }

    fn duplicate(&self) -> (r: Self) {
        self.clone()
    }

    open spec fn filed(self, id: RecordId) -> Self {
        Term { id: Some(id), ..self }
    }

    fn file_under(self, id: RecordId) -> (r: Self) {
        let mut r = self;
        r.id = Some(id);
        r
    }
}

/// A class of a school.
#[derive(Debug)]
pub struct Class {
    pub id: Option<RecordId>,
    pub school_id: RecordId,
    pub class_name: String,
    pub class_level: ClassLevel,
    pub class_teacher_id: Option<RecordId>,
    pub capacity: Option<i32>,
    pub current_enrollment: i32,
    pub session_id: Option<RecordId>,
    pub created_at: Datetime,
    pub updated_at: Datetime,
}

impl Clone for Class {
    fn clone(&self) -> (r: Self)
        ensures
            r == *self,
    {
        Class {
            id: self.id.clone(),
            school_id: self.school_id.clone(),
            class_name: self.class_name.clone(),
            class_level: self.class_level,
            class_teacher_id: self.class_teacher_id.clone(),
            capacity: self.capacity,
            current_enrollment: self.current_enrollment,
            session_id: self.session_id.clone(),
            created_at: self.created_at,
            updated_at: self.updated_at,
        }
    }
}

impl Record for Class {
    open spec fn record_id(&self) -> Option<RecordId> {
        self.id
    }

    fn id(&self) -> (r: &Option<RecordId>) {
        &self.id
    }

    fn duplicate(&self) -> (r: Self) {
        self.clone()
    }

    open spec fn filed(self, id: RecordId) -> Self {
        Class { id: Some(id), ..self }
    }

    fn file_under(self, id: RecordId) -> (r: Self) {
        let mut r = self;
        r.id = Some(id);
        r
    }
}

/// A subject that a school teaches.
#[derive(Debug)]
pub struct Subject {
    pub id: Option<RecordId>,
    pub school_id: RecordId,
    pub subject_name: String,
    pub subject_code: Option<String>,
    pub subject_type: SubjectType,
    pub created_at: Datetime,
}

impl Clone for Subject {
    fn clone(&self) -> (r: Self)
        ensures
            r == *self,
    {
        Subject {
            id: self.id.clone(),
            school_id: self.school_id.clone(),
            subject_name: self.subject_name.clone(),
            subject_code: self.subject_code.clone(),
            subject_type: self.subject_type,
            created_at: self.created_at,
        }
    }
}

impl Record for Subject {
    open spec fn record_id(&self) -> Option<RecordId> {
        self.id
    }

    fn id(&self) -> (r: &Option<RecordId>) {
        &self.id
    }

    fn duplicate(&self) -> (r: Self) {
        self.clone()
    }

    open spec fn filed(self, id: RecordId) -> Self {
        Subject { id: Some(id), ..self }
    }

    fn file_under(self, id: RecordId) -> (r: Self) {
        let mut r = self;
        r.id = Some(id);
        r
    }
}

/// The edge from a class to a subject taught in it, with the teacher if one is assigned.
#[derive(Debug)]
pub struct ClassSubject {
    pub id: Option<RecordId>,
    pub class_id: RecordId,
    pub subject_id: RecordId,
    pub teacher_id: Option<RecordId>,
    pub created_at: Datetime,
}

impl Clone for ClassSubject {
    fn clone(&self) -> (r: Self)
        ensures
            r == *self,
    {
        ClassSubject {
            id: self.id.clone(),
            class_id: self.class_id.clone(),
            subject_id: self.subject_id.clone(),
            teacher_id: self.teacher_id.clone(),
            created_at: self.created_at,
        }
    }
}

impl Record for ClassSubject {
    open spec fn record_id(&self) -> Option<RecordId> {
        self.id
    }

    fn id(&self) -> (r: &Option<RecordId>) {
        &self.id
    }

    fn duplicate(&self) -> (r: Self) {
        self.clone()
    }

    open spec fn filed(self, id: RecordId) -> Self {
        ClassSubject { id: Some(id), ..self }
    }

    fn file_under(self, id: RecordId) -> (r: Self) {
        let mut r = self;
        r.id = Some(id);
        r
    }
}

} // verus!
