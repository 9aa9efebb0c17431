//! Parents and their children, as whole rows.

use vstd::prelude::*;
use crate::error::DbResult;
use crate::error::Error;
use crate::models::Parent;
use crate::models::Student;
use crate::models::StudentParent;
use crate::queries::student;
use crate::queries::student::StudentQ;
use crate::table::files;
use crate::table::first_match;
use crate::table::keyed;
use crate::table::Record;
use crate::table::select;
use crate::values::Datetime;
use crate::values::RecordId;
use crate::values::Table;

verus! {

/// The repository of parents, answering in rows.
pub struct ParentQ;

impl ParentQ {
    /// Files a parent under `key`.
    pub fn create_parents(self, parents: &mut Vec<Parent>, data: Parent, key: String) -> (r:
        DbResult<Option<Parent>>)
        ensures
            files(
                old(parents)@,
                final(parents)@,
                data.filed(RecordId { table: Table::Parents, key }),
                r,
            ),
    {
        student::ParentQ.create(parents, data, key)
    }

    /// Links a parent to a student as the student's primary contact, by an
    /// edge filed under `key`. Where the student has a primary contact
    /// already, nothing is filed.
    pub fn link_parent_to_student(
        self,
        edges: &mut Vec<StudentParent>,
        student_id: String,
        parent_id: String,
        key: String,
        now: Datetime,
    ) -> (r: DbResult<Option<StudentParent>>)
        ensures
            if first_match(old(edges)@, student::ParentQ::primary_of(student_id@)) is Some {
                final(edges)@ == old(edges)@ && r == Err::<Option<StudentParent>, Error>(
                    Error::Duplicate(student_id),
                )
            } else {
                files(
                    old(edges)@,
                    final(edges)@,
                    student::ParentQ::link(student_id, parent_id, true, now).filed(
                        RecordId { table: Table::StudentParents, key },
                    ),
                    r,
                )
            },
            student::ParentQ::one_primary_each(old(edges)@) ==> student::ParentQ::one_primary_each(
                final(edges)@,
            ),
    {
        student::ParentQ.link_to_student(edges, student_id, parent_id, true, key, now)
    }

    /// The parent filed under `parent_id` with the parent's children: one
    /// row, or none where there is no such parent.
    pub fn get_all_children_for_parent(
        self,
        parents: &Vec<Parent>,
        edges: &Vec<StudentParent>,
        students: &Vec<Student>,
        parent_id: String,
    ) -> (r: Vec<(Parent, Vec<Student>)>)
        ensures
            match first_match(parents@, keyed(Table::Parents, parent_id@)) {
                Some(p) => r.len() == 1 && r@[0].0 == p && r@[0].1@ == edges@.filter_map(
                    student::ParentQ::child_of(
                        students@,
                        RecordId { table: Table::Parents, key: parent_id },
                    ),
                ),
                None => r.len() == 0,
            },
    {
        let mut rows: Vec<(Parent, Vec<Student>)> = Vec::new();
        match student::ParentQ.get_children(parents, edges, students, parent_id) {
            Some(row) => {
                rows.push(row);
            },
            None => {},
        }
        rows
    }

    /// The student filed under `student_id` with the student's parents:
    /// one row, or none where there is no such student.
    pub fn get_all_parent_for_student(
        self,
        students: &Vec<Student>,
        edges: &Vec<StudentParent>,
        parents: &Vec<Parent>,
        student_id: String,
    ) -> (r: Vec<(Student, Vec<Parent>)>)
        ensures
            match first_match(students@, keyed(Table::Students, student_id@)) {
                Some(s) => r.len() == 1 && r@[0].0 == s && r@[0].1@ == edges@.filter_map(
                    StudentQ::parent_of(
                        parents@,
                        RecordId { table: Table::Students, key: student_id },
                    ),
                ),
                None => r.len() == 0,
            },
    {
        let mut rows: Vec<(Student, Vec<Parent>)> = Vec::new();
        match student::ParentQ.get_for_student(students, edges, parents, student_id) {
            Some(row) => {
                rows.push(row);
            },
            None => {},
        }
        rows
    }

    /// The edges from a student to the student's primary contact, in the
    /// order of the table.
    pub fn get_student_pri_contact(self, edges: &Vec<StudentParent>, student_id: String) -> (r: Vec<
        StudentParent,
    >)
        ensures
            r@ == edges@.filter(student::ParentQ::primary_of(student_id@)),
    {
        let keep = |e: &StudentParent| -> (b: bool)
            ensures
                b == student::ParentQ::primary_of(student_id@)(*e),
            { e.student_id.is(Table::Students, &student_id) && e.primary_contact };
        select(edges, keep, Ghost(student::ParentQ::primary_of(student_id@)))
    }
}

} // verus!
