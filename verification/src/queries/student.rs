//! Students, their parents, and the edges between them.

use vstd::prelude::*;
use crate::error::DbResult;
use crate::error::Error;
use crate::helpers::create_update_dtos::CreateStudentDto;
use crate::models::academic::Class;
use crate::models::ClassLevel;
use crate::models::Parent;
use crate::models::Student;
use crate::models::StudentParent;
use crate::models::StudentStatus;
use crate::table::any;
use crate::table::capped;
use crate::table::collect;
use crate::table::count;
use crate::table::create;
use crate::table::files;
use crate::table::find;
use crate::table::find_by_id;
use crate::table::first_match;
use crate::table::follow;
use crate::table::follow_opt;
use crate::table::holds;
use crate::table::in_order;
use crate::table::keyed;
use crate::table::limit_or;
use crate::table::limited;
use crate::table::ordered;
use crate::table::ranks;
use crate::table::Record;
use crate::table::referred;
use crate::table::referred_opt;
use crate::table::revise_first;
use crate::table::revised_first;
use crate::table::rewrite_by_id;
use crate::table::select;
use crate::table::select_ordered;
use crate::text::contains_ignoring_case;
use crate::text::law_text_order;
use crate::text::lowercase_of;
use crate::text::str_before;
use crate::text::text_before;
use crate::text::text_contains;
use crate::values::Datetime;
use crate::values::id_is;
use crate::values::is_named;
use crate::values::RecordId;
use crate::values::Table;

verus! {

/// The repository of students.
pub struct StudentQ;

impl StudentQ {
    /// The student that is filed for who was admitted at `now`: attending,
    /// and admitted on that day.
    pub open spec fn admitted(data: CreateStudentDto, now: Datetime) -> Student {
        Student {
            id: None,
            school_id: data.school_id,
            admission_number: data.admission_number,
            first_name: data.first_name,
            middle_name: data.middle_name,
            last_name: data.last_name,
            date_of_birth: data.date_of_birth,
            gender: data.gender,
            address: data.address,
            current_class_id: data.current_class_id,
            admission_date: now,
            status: StudentStatus::Active,
            profile_photo_url: None,
            blood_group: None,
            genotype: None,
            medical_conditions: None,
            created_at: now,
            updated_at: now,
        }
    }

    /// The students with one admission number.
    pub open spec fn numbered(admission_number: Seq<char>) -> spec_fn(Student) -> bool {
        |s: Student| s.admission_number@ == admission_number
    }

    /// The students of one school who attend it.
    pub open spec fn attending(school_id: Seq<char>) -> spec_fn(Student) -> bool {
        |s: Student|
            s.school_id.names(Table::Schools, school_id) && s.status == StudentStatus::Active
    }

    /// The students of one class who attend.
    pub open spec fn in_class(class_id: Seq<char>) -> spec_fn(Student) -> bool {
        |s: Student|
            is_named(s.current_class_id, Table::Classes, class_id) && s.status
                == StudentStatus::Active
    }

    /// The students of one school who attend it and whose first name or
    /// family name contains `query`, the case of letters set aside.
    pub open spec fn matching(school_id: Seq<char>, query: Seq<char>) -> spec_fn(Student) -> bool {
        |s: Student|
            s.school_id.names(Table::Schools, school_id) && (text_contains(
                lowercase_of(s.first_name@),
                lowercase_of(query),
            ) || text_contains(lowercase_of(s.last_name@), lowercase_of(query))) && s.status
                == StudentStatus::Active
    }

    /// The student whose family name sorts lower comes first; of two with
    /// one family name, the one whose first name sorts lower.
    pub open spec fn by_name() -> spec_fn(Student, Student) -> bool {
        |a: Student, b: Student|
            text_before(a.last_name@, b.last_name@) || (a.last_name@ == b.last_name@
                && text_before(a.first_name@, b.first_name@))
    }

    /// A student moved to the class `new_class_id`, as of `now`.
    pub open spec fn promoted(new_class_id: String, now: Datetime) -> spec_fn(Student) -> Student {
        |s: Student|
            Student {
                current_class_id: Some(RecordId { table: Table::Classes, key: new_class_id }),
                updated_at: now,
                ..s
            }
    }

    /// A student with another status, as of `now`.
    pub open spec fn with_status(status: StudentStatus, now: Datetime) -> spec_fn(Student)
        -> Student {
        |s: Student| Student { status, updated_at: now, ..s }
    }

    /// The parent at the far end of an edge of the student `student`;
    /// nothing for an edge of another student.
    pub open spec fn parent_of(parents: Seq<Parent>, student: RecordId) -> spec_fn(StudentParent)
        -> Option<Parent> {
        |e: StudentParent|
            if e.student_id.names(student.table, student.key@) {
                referred(parents, e.out)
            } else {
                None
            }
    }

    /// The level of the class that a student is in, as far as the table of
    /// classes tells.
    pub open spec fn level_of(classes: Seq<Class>, s: Student) -> Option<ClassLevel> {
        match referred_opt(classes, s.current_class_id) {
            Some(c) => Some(c.class_level),
            None => None,
        }
    }

    /// The students of one school who attend it in a class of one level.
    pub open spec fn at_level(classes: Seq<Class>, school_id: Seq<char>, level: Option<ClassLevel>)
        -> spec_fn(Student) -> bool {
        |s: Student| Self::attending(school_id)(s) && Self::level_of(classes, s) == level
    }

    /// The row of one level in a count by level: nothing where no student counts.
    pub open spec fn level_row(
        students: Seq<Student>,
        classes: Seq<Class>,
        school_id: Seq<char>,
        level: Option<ClassLevel>,
    ) -> Seq<(Option<ClassLevel>, u64)> {
        let n = students.filter(Self::at_level(classes, school_id, level)).len();
        if n > 0 {
            seq![(level, n as u64)]
        } else {
            Seq::empty()
        }
    }

    /// Students are listed by name as a ranking lists them.
    pub proof fn law_by_name_ranks()
        ensures
            ranks(Self::by_name()),
    {
        let before = Self::by_name();
        assert forall|a: Student, b: Student| #[trigger] before(a, b) implies !before(b, a) by {
            law_text_order(a.last_name@, b.last_name@, a.last_name@);
            law_text_order(a.first_name@, b.first_name@, a.first_name@);
        }
        assert forall|a: Student, b: Student, c: Student|
            !(#[trigger] before(a, b)) && !(#[trigger] before(b, c)) implies !before(a, c) by {
            law_text_order(a.last_name@, b.last_name@, c.last_name@);
            law_text_order(a.first_name@, b.first_name@, c.first_name@);
        }
    }

    /// Admits a student, filed under `key`. No two students share a key or
    /// an admission number: where one of them is taken, nothing is filed.
    pub fn create(
        &self,
        students: &mut Vec<Student>,
        data: CreateStudentDto,
        key: String,
        now: Datetime,
    ) -> (r: DbResult<Option<Student>>)
        ensures
            match r {
                Ok(made) => {
                    &&& made == Some(
                        Self::admitted(data, now).filed(RecordId { table: Table::Students, key }),
                    )
                    &&& final(students)@ == old(students)@.push(made.unwrap())
                    &&& !holds(old(students)@, Table::Students, key@)
                    &&& first_match(old(students)@, Self::numbered(data.admission_number@)) is None
                },
                Err(e) => {
                    &&& final(students)@ == old(students)@
                    &&& if holds(old(students)@, Table::Students, key@) {
                        e == Error::Duplicate(key)
                    } else {
                        first_match(old(students)@, Self::numbered(data.admission_number@)) is Some
                            && e == Error::Duplicate(data.admission_number)
                    }
                },
            },
    {
        if find_by_id(students, Table::Students, &key).is_some() {
            return Err(Error::Duplicate(key));
        }
        let taken = |s: &Student| -> (b: bool)
            ensures
                b == Self::numbered(data.admission_number@)(*s),
            { s.admission_number == data.admission_number };
        if any(students, taken, Ghost(Self::numbered(data.admission_number@))) {
            return Err(Error::Duplicate(data.admission_number));
        }
        let record = Student {
            id: None,
            school_id: data.school_id,
            admission_number: data.admission_number,
            first_name: data.first_name,
            middle_name: data.middle_name,
            last_name: data.last_name,
            date_of_birth: data.date_of_birth,
            gender: data.gender,
            address: data.address,
            current_class_id: data.current_class_id,
            admission_date: now,
            status: StudentStatus::Active,
            profile_photo_url: None,
            blood_group: None,
            genotype: None,
            medical_conditions: None,
            created_at: now,
            updated_at: now,
        };
        create(students, record, Table::Students, key)
    }

    /// The student with this admission number.
    pub fn get_by_admission_number(&self, students: &Vec<Student>, admission_number: String) -> (r:
        Option<Student>)
        ensures
            r == first_match(students@, Self::numbered(admission_number@)),
            r is Some ==> r.unwrap().admission_number@ == admission_number@,
    {
        let keep = |s: &Student| -> (b: bool)
            ensures
                b == Self::numbered(admission_number@)(*s),
            { s.admission_number == admission_number };
        find(students, keep, Ghost(Self::numbered(admission_number@)))
    }

    /// The students of a school who attend it, by name.
    pub fn get_active_by_school(&self, students: &Vec<Student>, school_id: String) -> (r: Vec<
        Student,
    >)
        ensures
            r@ == ordered(students@.filter(Self::attending(school_id@)), Self::by_name()),
            in_order(r@, Self::by_name()),
            forall|i: int|
                0 <= i < r.len() ==> (#[trigger] r@[i]).school_id.names(Table::Schools, school_id@),
    {
        let keep = |s: &Student| -> (b: bool)
            ensures
                b == Self::attending(school_id@)(*s),
            { s.school_id.is(Table::Schools, &school_id) && s.status == StudentStatus::Active };
        let precedes = |a: &Student, b: &Student| -> (r: bool)
            ensures
                r == Self::by_name()(*a, *b),
            {
                str_before(a.last_name.as_str(), b.last_name.as_str()) || (a.last_name
                    == b.last_name && str_before(a.first_name.as_str(), b.first_name.as_str()))
            };
        proof {
            Self::law_by_name_ranks();
        }
        select_ordered(
            students,
            keep,
            precedes,
            Ghost(Self::attending(school_id@)),
            Ghost(Self::by_name()),
        )
    }

    /// The students of a class who attend, by name.
    pub fn get_by_class(&self, students: &Vec<Student>, class_id: String) -> (r: Vec<Student>)
        ensures
            r@ == ordered(students@.filter(Self::in_class(class_id@)), Self::by_name()),
            in_order(r@, Self::by_name()),
    {
        let keep = |s: &Student| -> (b: bool)
            ensures
                b == Self::in_class(class_id@)(*s),
            {
                id_is(&s.current_class_id, Table::Classes, &class_id) && s.status
                    == StudentStatus::Active
            };
        let precedes = |a: &Student, b: &Student| -> (r: bool)
            ensures
                r == Self::by_name()(*a, *b),
            {
                str_before(a.last_name.as_str(), b.last_name.as_str()) || (a.last_name
                    == b.last_name && str_before(a.first_name.as_str(), b.first_name.as_str()))
            };
        proof {
            Self::law_by_name_ranks();
        }
        select_ordered(
            students,
            keep,
            precedes,
            Ghost(Self::in_class(class_id@)),
            Ghost(Self::by_name()),
        )
    }

    /// A student with the class that the student is in and the student's
    /// parents, in the order of the edges.
    pub fn get_with_parents(
        &self,
        students: &Vec<Student>,
        classes: &Vec<Class>,
        edges: &Vec<StudentParent>,
        parents: &Vec<Parent>,
        student_id: String,
    ) -> (r: Option<(Student, Option<Class>, Vec<Parent>)>)
        ensures
            match first_match(students@, keyed(Table::Students, student_id@)) {
                Some(s) => r matches Some(found) && found.0 == s && found.1 == referred_opt(
                    classes@,
                    s.current_class_id,
                ) && found.2@ == edges@.filter_map(
                    Self::parent_of(
                        parents@,
                        RecordId { table: Table::Students, key: student_id },
                    ),
                ),
                None => r is None,
            },
    {
        match find_by_id(students, Table::Students, &student_id) {
            Some(s) => {
                let class = follow_opt(classes, &s.current_class_id);
                let me = RecordId::new(Table::Students, student_id);
                let ghost wanted = Self::parent_of(parents@, me);
                let derive = |e: &StudentParent| -> (u: Option<Parent>)
                    ensures
                        u == wanted(*e),
                    {
                        if e.student_id.same(&me) {
                            follow(parents, &e.out)
                        } else {
                            None
                        }
                    };
                let found = collect(edges, derive, Ghost(wanted));
                Some((s, class, found))
            },
            None => None,
        }
    }

    /// The students of a school who attend it and whose first name or
    /// family name contains `query`, the case of letters set aside, in the
    /// order of the table: as many as `limit` says, 20 where it says
    /// nothing.
    pub fn search(
        &self,
        students: &Vec<Student>,
        school_id: String,
        query: String,
        limit: Option<u32>,
    ) -> (r: Vec<Student>)
        ensures
            r@ == limited(
                students@.filter(Self::matching(school_id@, query@)),
                limit_or(limit, 20),
            ),
            r.len() <= limit_or(limit, 20),
            forall|i: int|
                0 <= i < r.len() ==> (#[trigger] r@[i]).school_id.names(Table::Schools, school_id@),
    {
        let keep = |s: &Student| -> (b: bool)
            ensures
                b == Self::matching(school_id@, query@)(*s),
            {
                s.school_id.is(Table::Schools, &school_id) && (contains_ignoring_case(
                    s.first_name.as_str(),
                    query.as_str(),
                ) || contains_ignoring_case(s.last_name.as_str(), query.as_str())) && s.status
                    == StudentStatus::Active
            };
        let found = select(students, keep, Ghost(Self::matching(school_id@, query@)));
        capped(found, limit, 20)
    }

    /// Moves a student to another class.
    pub fn promote(
        &self,
        students: &mut Vec<Student>,
        student_id: String,
        new_class_id: String,
        now: Datetime,
    ) -> (r: Option<Student>)
        ensures
            final(students)@ == revise_first(
                old(students)@,
                keyed(Table::Students, student_id@),
                Self::promoted(new_class_id, now),
            ),
            r == revised_first(
                old(students)@,
                keyed(Table::Students, student_id@),
                Self::promoted(new_class_id, now),
            ),
            r is Some <==> holds(old(students)@, Table::Students, student_id@),
    {
        let ghost apply = Self::promoted(new_class_id, now);
        let change = |s: &Student| -> (n: Student)
            ensures
                n == apply(*s),
            {
                let mut n = s.clone();
                n.current_class_id = Some(RecordId::new(Table::Classes, new_class_id.clone()));
                n.updated_at = now;
                n
            };
        rewrite_by_id(students, Table::Students, &student_id, change, Ghost(apply))
    }

    /// Sets the status of a student.
    pub fn update_status(
        &self,
        students: &mut Vec<Student>,
        student_id: String,
        status: StudentStatus,
        now: Datetime,
    ) -> (r: Option<Student>)
        ensures
            final(students)@ == revise_first(
                old(students)@,
                keyed(Table::Students, student_id@),
                Self::with_status(status, now),
            ),
            r == revised_first(
                old(students)@,
                keyed(Table::Students, student_id@),
                Self::with_status(status, now),
            ),
            r is Some <==> holds(old(students)@, Table::Students, student_id@),
    {
        let change = |s: &Student| -> (n: Student)
            ensures
                n == Self::with_status(status, now)(*s),
            {
                let mut n = s.clone();
                n.status = status;
                n.updated_at = now;
                n
            };
        rewrite_by_id(
            students,
            Table::Students,
            &student_id,
            change,
            Ghost(Self::with_status(status, now)),
        )
    }

    fn count_at_level(
        students: &Vec<Student>,
        classes: &Vec<Class>,
        school_id: &String,
        level: Option<ClassLevel>,
        rows: &mut Vec<(Option<ClassLevel>, u64)>,
    )
        ensures
            final(rows)@ == old(rows)@ + Self::level_row(students@, classes@, school_id@, level),
    {
        let keep = |s: &Student| -> (b: bool)
            ensures
                b == Self::at_level(classes@, school_id@, level)(*s),
            {
                s.school_id.is(Table::Schools, school_id) && s.status == StudentStatus::Active && (
                match follow_opt(classes, &s.current_class_id) {
                    Some(c) => match level {
                        Some(l) => c.class_level == l,
                        None => false,
                    },
                    None => level.is_none(),
                })
            };
        let n = count(students, keep, Ghost(Self::at_level(classes@, school_id@, level)));
        if n > 0 {
            rows.push((level, n as u64));
        }
        assert(rows@ =~= old(rows)@ + Self::level_row(students@, classes@, school_id@, level));
    }

    /// How many students of a school attend it at each level: a row for
    /// each level that counts a student, in the order nursery, primary,
    /// junior secondary, senior secondary, and last a row for the students
    /// without a class.
    pub fn count_by_class_level(
        &self,
        students: &Vec<Student>,
        classes: &Vec<Class>,
        school_id: String,
    ) -> (r: Vec<(Option<ClassLevel>, u64)>)
        ensures
            r@ == Self::level_row(students@, classes@, school_id@, Some(ClassLevel::Nursery))
                + Self::level_row(students@, classes@, school_id@, Some(ClassLevel::Primary))
                + Self::level_row(
                students@,
                classes@,
                school_id@,
                Some(ClassLevel::JuniorSecondary),
            ) + Self::level_row(
                students@,
                classes@,
                school_id@,
                Some(ClassLevel::SeniorSecondary),
            ) + Self::level_row(students@, classes@, school_id@, None),
    {
        let mut rows: Vec<(Option<ClassLevel>, u64)> = Vec::new();
        Self::count_at_level(students, classes, &school_id, Some(ClassLevel::Nursery), &mut rows);
        assert(rows@ =~= Self::level_row(
            students@,
            classes@,
            school_id@,
            Some(ClassLevel::Nursery),
        ));
        Self::count_at_level(students, classes, &school_id, Some(ClassLevel::Primary), &mut rows);
        Self::count_at_level(
            students,
            classes,
            &school_id,
            Some(ClassLevel::JuniorSecondary),
            &mut rows,
        );
        Self::count_at_level(
            students,
            classes,
            &school_id,
            Some(ClassLevel::SeniorSecondary),
            &mut rows,
        );
        Self::count_at_level(students, classes, &school_id, None, &mut rows);
        rows
    }
}

/// The repository of parents.
pub struct ParentQ;

impl ParentQ {
    /// The edge that links a student to a parent, made at `now`.
    pub open spec fn link(student_id: String, parent_id: String, primary_contact: bool, now: Datetime)
        -> StudentParent {
        StudentParent {
            id: None,
            student_id: RecordId { table: Table::Students, key: student_id },
            out: RecordId { table: Table::Parents, key: parent_id },
            primary_contact,
            created_at: now,
        }
    }

    /// The edges of one student to the student's primary contact.
    pub open spec fn primary_of(student_id: Seq<char>) -> spec_fn(StudentParent) -> bool {
        |e: StudentParent| e.student_id.names(Table::Students, student_id) && e.primary_contact
    }

    /// No student has two primary contacts.
    pub open spec fn one_primary_each(edges: Seq<StudentParent>) -> bool {
        forall|i: int, j: int|
            0 <= i < j < edges.len() && (#[trigger] edges[i]).primary_contact
                && (#[trigger] edges[j]).primary_contact ==> !edges[i].student_id.names(
                edges[j].student_id.table,
                edges[j].student_id.key@,
            )
    }

    /// The student at the near end of an edge of the parent `parent`;
    /// nothing for an edge of another parent.
    pub open spec fn child_of(students: Seq<Student>, parent: RecordId) -> spec_fn(StudentParent)
        -> Option<Student> {
        |e: StudentParent|
            if e.out.names(parent.table, parent.key@) {
                referred(students, e.student_id)
            } else {
                None
            }
    }

    /// The students of one school who have one status.
    pub open spec fn with_status(school_id: Seq<char>, status: StudentStatus) -> spec_fn(Student)
        -> bool {
        |s: Student| s.school_id.names(Table::Schools, school_id) && s.status == status
    }

    /// The row of one status in a count by status: nothing where no student counts.
    pub open spec fn status_row(students: Seq<Student>, school_id: Seq<char>, status: StudentStatus)
        -> Seq<(StudentStatus, u64)> {
        let n = students.filter(Self::with_status(school_id, status)).len();
        if n > 0 {
            seq![(status, n as u64)]
        } else {
            Seq::empty()
        }
    }

    /// The students of one school who are in no class.
    pub open spec fn unassigned(school_id: Seq<char>) -> spec_fn(Student) -> bool {
        |s: Student| s.school_id.names(Table::Schools, school_id) && s.current_class_id is None
    }

    /// Files a parent under `key`.
    pub fn create(&self, parents: &mut Vec<Parent>, data: Parent, key: String) -> (r: DbResult<
        Option<Parent>,
    >)
        ensures
            files(
                old(parents)@,
                final(parents)@,
                data.filed(RecordId { table: Table::Parents, key }),
                r,
            ),
    {
        create(parents, data, Table::Parents, key)
    }

    /// Links a parent to a student by an edge filed under `key`. A student
    /// has one primary contact at most: where the edge is to make a second,
    /// nothing is filed.
    pub fn link_to_student(
        &self,
        edges: &mut Vec<StudentParent>,
        student_id: String,
        parent_id: String,
        primary_contact: bool,
        key: String,
        now: Datetime,
    ) -> (r: DbResult<Option<StudentParent>>)
        ensures
            if primary_contact && first_match(old(edges)@, Self::primary_of(student_id@)) is Some {
                final(edges)@ == old(edges)@ && r == Err::<Option<StudentParent>, Error>(
                    Error::Duplicate(student_id),
                )
            } else {
                files(
                    old(edges)@,
                    final(edges)@,
                    Self::link(student_id, parent_id, primary_contact, now).filed(
                        RecordId { table: Table::StudentParents, key },
                    ),
                    r,
                )
            },
            Self::one_primary_each(old(edges)@) ==> Self::one_primary_each(final(edges)@),
    {
        if primary_contact {
            let keep = |e: &StudentParent| -> (b: bool)
                ensures
                    b == Self::primary_of(student_id@)(*e),
                { e.student_id.is(Table::Students, &student_id) && e.primary_contact };
            if any(edges, keep, Ghost(Self::primary_of(student_id@))) {
                return Err(Error::Duplicate(student_id));
            }
        }
        let data = StudentParent {
            id: None,
            student_id: RecordId::new(Table::Students, student_id),
            out: RecordId::new(Table::Parents, parent_id),
            primary_contact,
            created_at: now,
        };
        let r = create(edges, data, Table::StudentParents, key);
        proof {
            if Self::one_primary_each(old(edges)@) && r is Ok {
                let after = edges@;
                assert forall|i: int, j: int|
                    0 <= i < j < after.len() && (#[trigger] after[i]).primary_contact
                        && (#[trigger] after[j]).primary_contact implies !after[i].student_id.names(
                    after[j].student_id.table,
                    after[j].student_id.key@,
                ) by {
                    if j == after.len() - 1 {
                        assert(after[i] == old(edges)@[i]);
                        if after[i].student_id.names(
                            after[j].student_id.table,
                            after[j].student_id.key@,
                        ) {
                            assert(Self::primary_of(student_id@)(old(edges)@[i]));
                        }
                    } else {
                        assert(after[i] == old(edges)@[i] && after[j] == old(edges)@[j]);
                    }
                }
            }
        }
        r
    }

    /// A parent with the parent's children, in the order of the edges.
    pub fn get_children(
        &self,
        parents: &Vec<Parent>,
        edges: &Vec<StudentParent>,
        students: &Vec<Student>,
        parent_id: String,
    ) -> (r: Option<(Parent, Vec<Student>)>)
        ensures
            match first_match(parents@, keyed(Table::Parents, parent_id@)) {
                Some(p) => r matches Some(found) && found.0 == p && found.1@ == edges@.filter_map(
                    Self::child_of(students@, RecordId { table: Table::Parents, key: parent_id }),
                ),
                None => r is None,
            },
    {
        match find_by_id(parents, Table::Parents, &parent_id) {
            Some(p) => {
                let me = RecordId::new(Table::Parents, parent_id);
                let ghost wanted = Self::child_of(students@, me);
                let derive = |e: &StudentParent| -> (u: Option<Student>)
                    ensures
                        u == wanted(*e),
                    {
                        if e.out.same(&me) {
                            follow(students, &e.student_id)
                        } else {
                            None
                        }
                    };
                let found = collect(edges, derive, Ghost(wanted));
                Some((p, found))
            },
            None => None,
        }
    }

    /// A student with the student's parents, in the order of the edges.
    pub fn get_for_student(
        &self,
        students: &Vec<Student>,
        edges: &Vec<StudentParent>,
        parents: &Vec<Parent>,
        student_id: String,
    ) -> (r: Option<(Student, Vec<Parent>)>)
        ensures
            match first_match(students@, keyed(Table::Students, student_id@)) {
                Some(s) => r matches Some(found) && found.0 == s && found.1@ == edges@.filter_map(
                    StudentQ::parent_of(
                        parents@,
                        RecordId { table: Table::Students, key: student_id },
                    ),
                ),
                None => r is None,
            },
    {
        match find_by_id(students, Table::Students, &student_id) {
            Some(s) => {
                let me = RecordId::new(Table::Students, student_id);
                let ghost wanted = StudentQ::parent_of(parents@, me);
                let derive = |e: &StudentParent| -> (u: Option<Parent>)
                    ensures
                        u == wanted(*e),
                    {
                        if e.student_id.same(&me) {
                            follow(parents, &e.out)
                        } else {
                            None
                        }
                    };
                let found = collect(edges, derive, Ghost(wanted));
                Some((s, found))
            },
            None => None,
        }
    }

    /// The edge from a student to the student's primary contact: the first
    /// that the table holds.
    pub fn get_primary_contact(&self, edges: &Vec<StudentParent>, student_id: String) -> (r: Option<
        StudentParent,
    >)
        ensures
            r == first_match(edges@, Self::primary_of(student_id@)),
    {
        let keep = |e: &StudentParent| -> (b: bool)
            ensures
                b == Self::primary_of(student_id@)(*e),
            { e.student_id.is(Table::Students, &student_id) && e.primary_contact };
        find(edges, keep, Ghost(Self::primary_of(student_id@)))
    }

    fn count_with_status(
        students: &Vec<Student>,
        school_id: &String,
        status: StudentStatus,
        rows: &mut Vec<(StudentStatus, u64)>,
    )
        ensures
            final(rows)@ == old(rows)@ + Self::status_row(students@, school_id@, status),
    {
        let keep = |s: &Student| -> (b: bool)
            ensures
                b == Self::with_status(school_id@, status)(*s),
            { s.school_id.is(Table::Schools, school_id) && s.status == status };
        let n = count(students, keep, Ghost(Self::with_status(school_id@, status)));
        if n > 0 {
            rows.push((status, n as u64));
        }
        assert(rows@ =~= old(rows)@ + Self::status_row(students@, school_id@, status));
    }

    /// How many students of a school have each status: a row for each
    /// status that counts a student, in the order active, graduated,
    /// withdrawn, suspended.
    pub fn count_by_status(&self, students: &Vec<Student>, school_id: String) -> (r: Vec<
        (StudentStatus, u64),
    >)
        ensures
            r@ == Self::status_row(students@, school_id@, StudentStatus::Active) + Self::status_row(
                students@,
                school_id@,
                StudentStatus::Graduated,
            ) + Self::status_row(students@, school_id@, StudentStatus::Withdrawn)
                + Self::status_row(students@, school_id@, StudentStatus::Suspended),
    {
        let mut rows: Vec<(StudentStatus, u64)> = Vec::new();
        Self::count_with_status(students, &school_id, StudentStatus::Active, &mut rows);
        assert(rows@ =~= Self::status_row(students@, school_id@, StudentStatus::Active));
        Self::count_with_status(students, &school_id, StudentStatus::Graduated, &mut rows);
        Self::count_with_status(students, &school_id, StudentStatus::Withdrawn, &mut rows);
        Self::count_with_status(students, &school_id, StudentStatus::Suspended, &mut rows);
        rows
    }

    /// The students of a school who are in no class, in the order of the table.
    pub fn get_unassigned(&self, students: &Vec<Student>, school_id: String) -> (r: Vec<Student>)
        ensures
            r@ == students@.filter(Self::unassigned(school_id@)),
            forall|i: int|
                0 <= i < r.len() ==> (#[trigger] r@[i]).school_id.names(Table::Schools, school_id@),
    {
        let keep = |s: &Student| -> (b: bool)
            ensures
                b == Self::unassigned(school_id@)(*s),
            { s.school_id.is(Table::Schools, &school_id) && s.current_class_id.is_none() };
        select(students, keep, Ghost(Self::unassigned(school_id@)))
    }

    /// The student filed under `student_id`.
    pub fn get_by_id(&self, students: &Vec<Student>, student_id: String) -> (r: Option<Student>)
        ensures
            r == first_match(students@, keyed(Table::Students, student_id@)),
            r is Some <==> holds(students@, Table::Students, student_id@),
    {
        find_by_id(students, Table::Students, &student_id)
    }
}

} // verus!
