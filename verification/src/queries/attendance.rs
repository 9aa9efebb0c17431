//! Daily attendance and its rollup by term.

use vstd::prelude::*;
use crate::error::DbResult;
use crate::error::Error;
use crate::helpers::create_update_dtos::MarkAttendanceDto;
use crate::models::academic::Class;
use crate::models::attendance::Attendance;
use crate::models::attendance::AttendanceSummary;
use crate::models::AttendanceStatus;
use crate::models::Student;
use crate::table::any;
use crate::table::arrange;
use crate::table::capped;
use crate::table::collect;
use crate::table::convert;
use crate::table::count;
use crate::table::create;
use crate::table::files;
use crate::table::find;
use crate::table::first_match;
use crate::table::first_of;
use crate::table::follow;
use crate::table::holds;
use crate::table::in_order;
use crate::table::keyed;
use crate::table::law_numbers_rank;
use crate::table::lemma_limited_in_order;
use crate::table::limit_or;
use crate::table::limited;
use crate::table::ordered;
use crate::table::Record;
use crate::table::referred;
use crate::table::revise_all;
use crate::table::revise_first;
use crate::table::revised_first;
use crate::table::rewrite_all;
use crate::table::rewrite_by_id;
use crate::table::select;
use crate::table::select_ordered;
use crate::table::tally;
use crate::table::total;
use crate::text::str_before;
use crate::text::text_before;
use crate::values::Datetime;
use crate::values::Decimal;
use crate::values::id_is;
use crate::values::is_named;
use crate::values::mean;
use crate::values::quotient;
use crate::values::RecordId;
use crate::values::Table;

verus! {

/// Whether the name `a` sorts before the name `b`, where no name sorts
/// before any name.
pub open spec fn name_before(a: Option<String>, b: Option<String>) -> bool {
    match (a, b) {
        (None, Some(_)) => true,
        (Some(x), Some(y)) => text_before(x@, y@),
        _ => false,
    }
}

/// Tests whether the name `a` sorts before the name `b`, where no name
/// sorts before any name.
pub fn is_name_before(a: &Option<String>, b: &Option<String>) -> (r: bool)
    ensures
        r == name_before(*a, *b),
{
    match (a, b) {
        (None, Some(_)) => true,
        (Some(x), Some(y)) => str_before(x.as_str(), y.as_str()),
        _ => false,
    }
}

/// The repository of daily attendance.
pub struct AttendanceQ;

impl AttendanceQ {
    /// The attendance that is filed for what was marked at `now`.
    pub open spec fn marked(data: MarkAttendanceDto, now: Datetime) -> Attendance {
        Attendance {
            id: None,
            student_id: data.student_id,
            class_id: data.class_id,
            date: data.date,
            status: data.status,
            arrival_time: data.arrival_time,
            reason: data.reason,
            marked_by: None,
            marked_at: now,
            updated_at: now,
        }
    }

    /// The attendance of one student on one day.
    pub open spec fn of_student_on(student_id: Seq<char>, date: Datetime) -> spec_fn(Attendance)
        -> bool {
        |a: Attendance| a.student_id.names(Table::Students, student_id) && a.date == date
    }

    /// The attendance of one class on one day.
    pub open spec fn of_class_on(class_id: Seq<char>, date: Datetime) -> spec_fn(Attendance)
        -> bool {
        |a: Attendance| a.class_id.names(Table::Classes, class_id) && a.date == date
    }

    /// The absences of one class on one day.
    pub open spec fn absent_on(class_id: Seq<char>, date: Datetime) -> spec_fn(Attendance)
        -> bool {
        |a: Attendance|
            a.class_id.names(Table::Classes, class_id) && a.date == date && a.status
                == AttendanceStatus::Absent
    }

    /// The attendance of one student.
    pub open spec fn of_student(student_id: Seq<char>) -> spec_fn(Attendance) -> bool {
        |a: Attendance| a.student_id.names(Table::Students, student_id)
    }

    /// The days from `from` to `to`, both included, on which one student
    /// attended in one way.
    pub open spec fn counted(
        student_id: Seq<char>,
        from: Datetime,
        to: Datetime,
        status: AttendanceStatus,
    ) -> spec_fn(Attendance) -> bool {
        |a: Attendance|
            a.student_id.names(Table::Students, student_id) && from <= a.date <= to && a.status
                == status
    }

    /// The row of one status in a count by status: nothing where no day counts.
    pub open spec fn status_row(
        attendance: Seq<Attendance>,
        student_id: Seq<char>,
        from: Datetime,
        to: Datetime,
        status: AttendanceStatus,
    ) -> Seq<(AttendanceStatus, u64)> {
        let n = attendance.filter(Self::counted(student_id, from, to, status)).len();
        if n > 0 {
            seq![(status, n as u64)]
        } else {
            Seq::empty()
        }
    }

    /// The family name of the student of an attendance record, as far as
    /// the table of students tells.
    pub open spec fn family_name(students: Seq<Student>, a: Attendance) -> Option<String> {
        match referred(students, a.student_id) {
            Some(s) => Some(s.last_name),
            None => None,
        }
    }

    /// The record of a status whose name sorts lower comes first; within a
    /// status, the record of the student whose family name sorts lower.
    pub open spec fn by_status_and_name(students: Seq<Student>) -> spec_fn(Attendance, Attendance)
        -> bool {
        |a: Attendance, b: Attendance|
            text_before(a.status.name(), b.status.name()) || (a.status == b.status && name_before(
                Self::family_name(students, a),
                Self::family_name(students, b),
            ))
    }

    /// The later day comes first.
    pub open spec fn latest_first() -> spec_fn(Attendance, Attendance) -> bool {
        |a: Attendance, b: Attendance| a.date > b.date
    }

    /// An attendance record with its student.
    pub open spec fn with_student(students: Seq<Student>) -> spec_fn(Attendance) -> (
        Attendance,
        Option<Student>,
    ) {
        |a: Attendance| (a, referred(students, a.student_id))
    }

    /// An attendance record with another status and reason, as of `now`.
    pub open spec fn restated(status: AttendanceStatus, reason: Option<String>, now: Datetime)
        -> spec_fn(Attendance) -> Attendance {
        |a: Attendance| Attendance { status, reason, updated_at: now, ..a }
    }

    /// Files the attendance that was marked, under `key`.
    pub fn mark(
        &self,
        attendance: &mut Vec<Attendance>,
        data: MarkAttendanceDto,
        key: String,
        now: Datetime,
    ) -> (r: DbResult<Option<Attendance>>)
        ensures
            files(
                old(attendance)@,
                final(attendance)@,
                Self::marked(data, now).filed(RecordId { table: Table::Attendance, key }),
                r,
            ),
    {
        let record = Attendance {
            id: None,
            student_id: data.student_id,
            class_id: data.class_id,
            date: data.date,
            status: data.status,
            arrival_time: data.arrival_time,
            reason: data.reason,
            marked_by: None,
            marked_at: now,
            updated_at: now,
        };
        create(attendance, record, Table::Attendance, key)
    }

    /// The attendance of a student on a day: the first record that the table holds.
    pub fn get_by_student_and_date(
        &self,
        attendance: &Vec<Attendance>,
        student_id: String,
        date: Datetime,
    ) -> (r: Option<Attendance>)
        ensures
            r == first_match(attendance@, Self::of_student_on(student_id@, date)),
    {
        let keep = |a: &Attendance| -> (b: bool)
            ensures
                b == Self::of_student_on(student_id@, date)(*a),
            { a.student_id.is(Table::Students, &student_id) && a.date == date };
        find(attendance, keep, Ghost(Self::of_student_on(student_id@, date)))
    }

    /// The attendance of a class on a day, each record with its student,
    /// by status and family name.
    pub fn get_by_class_and_date(
        &self,
        attendance: &Vec<Attendance>,
        students: &Vec<Student>,
        class_id: String,
        date: Datetime,
    ) -> (r: Vec<(Attendance, Option<Student>)>)
        ensures
            r@ == ordered(
                attendance@.filter(Self::of_class_on(class_id@, date)),
                Self::by_status_and_name(students@),
            ).map_values(Self::with_student(students@)),
    {
        let keep = |a: &Attendance| -> (b: bool)
            ensures
                b == Self::of_class_on(class_id@, date)(*a),
            { a.class_id.is(Table::Classes, &class_id) && a.date == date };
        let family = |a: &Attendance| -> (n: Option<String>)
            ensures
                n == Self::family_name(students@, *a),
            {
                match follow(students, &a.student_id) {
                    Some(s) => Some(s.last_name),
                    None => None,
                }
            };
        let precedes = |a: &Attendance, b: &Attendance| -> (r: bool)
            ensures
                r == Self::by_status_and_name(students@)(*a, *b),
            {
                str_before(a.status.as_str(), b.status.as_str()) || (a.status == b.status
                    && is_name_before(&family(a), &family(b)))
            };
        let found = select_ordered(
            attendance,
            keep,
            precedes,
            Ghost(Self::of_class_on(class_id@, date)),
            Ghost(Self::by_status_and_name(students@)),
        );
        let turn = |a: &Attendance| -> (u: (Attendance, Option<Student>))
            ensures
                u == Self::with_student(students@)(*a),
            { (a.clone(), follow(students, &a.student_id)) };
        convert(&found, turn, Ghost(Self::with_student(students@)))
    }

    /// The latest attendance of a student, the latest day first: as many
    /// records as `limit` says, 30 where it says nothing.
    pub fn get_history(&self, attendance: &Vec<Attendance>, student_id: String, limit: Option<u32>)
        -> (r: Vec<Attendance>)
        ensures
            r@ == limited(
                ordered(attendance@.filter(Self::of_student(student_id@)), Self::latest_first()),
                limit_or(limit, 30),
            ),
            in_order(r@, Self::latest_first()),
            r.len() <= limit_or(limit, 30),
    {
        let keep = |a: &Attendance| -> (b: bool)
            ensures
                b == Self::of_student(student_id@)(*a),
            { a.student_id.is(Table::Students, &student_id) };
        let precedes = |a: &Attendance, b: &Attendance| -> (r: bool)
            ensures
                r == Self::latest_first()(*a, *b),
            { a.date > b.date };
        let found = select_ordered(
            attendance,
            keep,
            precedes,
            Ghost(Self::of_student(student_id@)),
            Ghost(Self::latest_first()),
        );
        proof {
            law_numbers_rank(Self::latest_first(), |a: Attendance| -(a.date as int));
            lemma_limited_in_order(found@, limit_or(limit, 30), Self::latest_first());
        }
        capped(found, limit, 30)
    }

    fn count_one(
        attendance: &Vec<Attendance>,
        student_id: &String,
        from: Datetime,
        to: Datetime,
        status: AttendanceStatus,
        rows: &mut Vec<(AttendanceStatus, u64)>,
    )
        ensures
            final(rows)@ == old(rows)@ + Self::status_row(
                attendance@,
                student_id@,
                from,
                to,
                status,
            ),
    {
        let keep = |a: &Attendance| -> (b: bool)
            ensures
                b == Self::counted(student_id@, from, to, status)(*a),
            {
                a.student_id.is(Table::Students, student_id) && from <= a.date && a.date <= to
                    && a.status == status
            };
        let n = count(attendance, keep, Ghost(Self::counted(student_id@, from, to, status)));
        if n > 0 {
            rows.push((status, n as u64));
        }
        assert(rows@ =~= old(rows)@ + Self::status_row(attendance@, student_id@, from, to, status));
    }

    /// How often a student attended in each way from `term_start_date` to
    /// `term_end_date`: a row for each status that counts a day, in the
    /// order present, absent, late, excused.
    pub fn count_by_status(
        &self,
        attendance: &Vec<Attendance>,
        student_id: String,
        term_start_date: Datetime,
        term_end_date: Datetime,
    ) -> (r: Vec<(AttendanceStatus, u64)>)
        ensures
            r@ == Self::status_row(
                attendance@,
                student_id@,
                term_start_date,
                term_end_date,
                AttendanceStatus::Present,
            ) + Self::status_row(
                attendance@,
                student_id@,
                term_start_date,
                term_end_date,
                AttendanceStatus::Absent,
            ) + Self::status_row(
                attendance@,
                student_id@,
                term_start_date,
                term_end_date,
                AttendanceStatus::Late,
            ) + Self::status_row(
                attendance@,
                student_id@,
                term_start_date,
                term_end_date,
                AttendanceStatus::Excused,
            ),
    {
        let mut rows: Vec<(AttendanceStatus, u64)> = Vec::new();
        Self::count_one(
            attendance,
            &student_id,
            term_start_date,
            term_end_date,
            AttendanceStatus::Present,
            &mut rows,
        );
        assert(rows@ =~= Self::status_row(
            attendance@,
            student_id@,
            term_start_date,
            term_end_date,
            AttendanceStatus::Present,
        ));
        Self::count_one(
            attendance,
            &student_id,
            term_start_date,
            term_end_date,
            AttendanceStatus::Absent,
            &mut rows,
        );
        Self::count_one(
            attendance,
            &student_id,
            term_start_date,
            term_end_date,
            AttendanceStatus::Late,
            &mut rows,
        );
        Self::count_one(
            attendance,
            &student_id,
            term_start_date,
            term_end_date,
            AttendanceStatus::Excused,
            &mut rows,
        );
        rows
    }

    /// The students of a class who are absent on the day `today`, each
    /// record with its student, in the order of the table.
    pub fn get_absent_today(
        &self,
        attendance: &Vec<Attendance>,
        students: &Vec<Student>,
        class_id: String,
        today: Datetime,
    ) -> (r: Vec<(Attendance, Option<Student>)>)
        ensures
            r@ == attendance@.filter(Self::absent_on(class_id@, today)).map_values(
                Self::with_student(students@),
            ),
    {
        let keep = |a: &Attendance| -> (b: bool)
            ensures
                b == Self::absent_on(class_id@, today)(*a),
            {
                a.class_id.is(Table::Classes, &class_id) && a.date == today && a.status
                    == AttendanceStatus::Absent
            };
        let found = select(attendance, keep, Ghost(Self::absent_on(class_id@, today)));
        let turn = |a: &Attendance| -> (u: (Attendance, Option<Student>))
            ensures
                u == Self::with_student(students@)(*a),
            { (a.clone(), follow(students, &a.student_id)) };
        convert(&found, turn, Ghost(Self::with_student(students@)))
    }

    /// Restates how a student attended, and why.
    pub fn update_status(
        &self,
        attendance: &mut Vec<Attendance>,
        attendance_id: String,
        status: AttendanceStatus,
        reason: Option<String>,
        now: Datetime,
    ) -> (r: Option<Attendance>)
        ensures
            final(attendance)@ == revise_first(
                old(attendance)@,
                keyed(Table::Attendance, attendance_id@),
                Self::restated(status, reason, now),
            ),
            r == revised_first(
                old(attendance)@,
                keyed(Table::Attendance, attendance_id@),
                Self::restated(status, reason, now),
            ),
            r is Some <==> holds(old(attendance)@, Table::Attendance, attendance_id@),
    {
        let ghost apply = Self::restated(status, reason, now);
        let change = |a: &Attendance| -> (n: Attendance)
            ensures
                n == apply(*a),
            {
                let mut n = a.clone();
                n.status = status;
                n.reason = reason.clone();
                n.updated_at = now;
                n
            };
        rewrite_by_id(attendance, Table::Attendance, &attendance_id, change, Ghost(apply))
    }
}

/// The repository of attendance by term.
pub struct AttendanceSummaryQ;

impl AttendanceSummaryQ {
    /// The summaries of one student for one term.
    pub open spec fn of_student_term(student_id: Seq<char>, term_id: Seq<char>) -> spec_fn(
        AttendanceSummary,
    ) -> bool {
        |s: AttendanceSummary|
            s.student_id.names(Table::Students, student_id) && s.term_id.names(
                Table::Terms,
                term_id,
            )
    }

    /// The summary of a student's term with these counts, as of `now`,
    /// under the identity `id`.
    pub open spec fn counted(
        id: Option<RecordId>,
        student_id: String,
        term_id: String,
        total_present: i32,
        total_absent: i32,
        total_late: i32,
        total_excused: i32,
        attendance_percentage: Decimal,
        now: Datetime,
    ) -> AttendanceSummary {
        AttendanceSummary {
            id,
            student_id: RecordId { table: Table::Students, key: student_id },
            term_id: RecordId { table: Table::Terms, key: term_id },
            total_present,
            total_absent,
            total_late,
            total_excused,
            attendance_percentage,
            updated_at: now,
        }
    }

    /// A summary replaced by one with these counts, under the identity that it had.
    pub open spec fn recounted(
        student_id: String,
        term_id: String,
        total_present: i32,
        total_absent: i32,
        total_late: i32,
        total_excused: i32,
        attendance_percentage: Decimal,
        now: Datetime,
    ) -> spec_fn(AttendanceSummary) -> AttendanceSummary {
        |s: AttendanceSummary|
            Self::counted(
                s.id,
                student_id,
                term_id,
                total_present,
                total_absent,
                total_late,
                total_excused,
                attendance_percentage,
                now,
            )
    }

    /// Sets the summary of a student's term, in one step: where the table
    /// holds summaries of that student and term, each is replaced by one
    /// with these counts, and the first is handed back; where it holds
    /// none, one is filed under `key`, unless that key is taken.
    pub fn upsert(
        &self,
        summaries: &mut Vec<AttendanceSummary>,
        student_id: String,
        term_id: String,
        total_present: i32,
        total_absent: i32,
        total_late: i32,
        total_excused: i32,
        attendance_percentage: Decimal,
        key: String,
        now: Datetime,
    ) -> (r: DbResult<Option<AttendanceSummary>>)
        ensures
            if first_match(old(summaries)@, Self::of_student_term(student_id@, term_id@)) is Some {
                &&& final(summaries)@ == revise_all(
                    old(summaries)@,
                    Self::of_student_term(student_id@, term_id@),
                    Self::recounted(
                        student_id,
                        term_id,
                        total_present,
                        total_absent,
                        total_late,
                        total_excused,
                        attendance_percentage,
                        now,
                    ),
                )
                &&& r == Ok::<Option<AttendanceSummary>, Error>(
                    first_of(
                        old(summaries)@.filter(
                            Self::of_student_term(student_id@, term_id@),
                        ).map_values(
                            Self::recounted(
                                student_id,
                                term_id,
                                total_present,
                                total_absent,
                                total_late,
                                total_excused,
                                attendance_percentage,
                                now,
                            ),
                        ),
                    ),
                )
            } else {
                files(
                    old(summaries)@,
                    final(summaries)@,
                    Self::counted(
                        Some(RecordId { table: Table::AttendanceSummary, key }),
                        student_id,
                        term_id,
                        total_present,
                        total_absent,
                        total_late,
                        total_excused,
                        attendance_percentage,
                        now,
                    ),
                    r,
                )
            },
    {
        let ghost apply = Self::recounted(
            student_id,
            term_id,
            total_present,
            total_absent,
            total_late,
            total_excused,
            attendance_percentage,
            now,
        );
        let keep = |s: &AttendanceSummary| -> (b: bool)
            ensures
                b == Self::of_student_term(student_id@, term_id@)(*s),
            { s.student_id.is(Table::Students, &student_id) && s.term_id.is(Table::Terms, &term_id)
            };
        if any(summaries, &keep, Ghost(Self::of_student_term(student_id@, term_id@))) {
            let change = |s: &AttendanceSummary| -> (n: AttendanceSummary)
                ensures
                    n == apply(*s),
                {
                    AttendanceSummary {
                        id: s.id.clone(),
                        student_id: RecordId::new(Table::Students, student_id.clone()),
                        term_id: RecordId::new(Table::Terms, term_id.clone()),
                        total_present,
                        total_absent,
                        total_late,
                        total_excused,
                        attendance_percentage,
                        updated_at: now,
                    }
                };
            let mut changed = rewrite_all(
                summaries,
                &keep,
                change,
                Ghost(Self::of_student_term(student_id@, term_id@)),
                Ghost(apply),
            );
            if changed.len() > 0 {
                Ok(Some(changed.remove(0)))
            } else {
                Ok(None)
            }
        } else {
            let data = AttendanceSummary {
                id: None,
                student_id: RecordId::new(Table::Students, student_id),
                term_id: RecordId::new(Table::Terms, term_id),
                total_present,
                total_absent,
                total_late,
                total_excused,
                attendance_percentage,
                updated_at: now,
            };
            create(summaries, data, Table::AttendanceSummary, key)
        }
    }

    /// The summary of a student's term: the first that the table holds.
    pub fn get(&self, summaries: &Vec<AttendanceSummary>, student_id: String, term_id: String) -> (r:
        Option<AttendanceSummary>)
        ensures
            r == first_match(summaries@, Self::of_student_term(student_id@, term_id@)),
    {
        let keep = |s: &AttendanceSummary| -> (b: bool)
            ensures
                b == Self::of_student_term(student_id@, term_id@)(*s),
            { s.student_id.is(Table::Students, &student_id) && s.term_id.is(Table::Terms, &term_id)
            };
        find(summaries, keep, Ghost(Self::of_student_term(student_id@, term_id@)))
    }

    /// The summaries of one term of the students of the class filed as `class`.
    pub open spec fn of_class(students: Seq<Student>, class: Option<RecordId>, term_id: Seq<char>)
        -> spec_fn(AttendanceSummary) -> bool {
        |s: AttendanceSummary|
            s.term_id.names(Table::Terms, term_id) && (referred(students, s.student_id) matches Some(
                st,
            ) && st.current_class_id matches Some(c) && is_named(class, c.table, c.key@))
    }

    /// The percentage that a summary reports.
    pub open spec fn percentage() -> spec_fn(AttendanceSummary) -> int {
        |s: AttendanceSummary| s.attendance_percentage as int
    }

    /// The row of one class in the attendance by class: its name, and the
    /// mean of what the summaries of its students report; nothing for a
    /// class of whose students there is no summary.
    pub open spec fn class_row(
        summaries: Seq<AttendanceSummary>,
        students: Seq<Student>,
        term_id: Seq<char>,
    ) -> spec_fn(Class) -> Option<(String, Decimal)> {
        |c: Class|
            {
                let sel = summaries.filter(Self::of_class(students, c.id, term_id));
                if sel.len() > 0 {
                    Some(
                        (
                            c.class_name,
                            quotient(total(sel, Self::percentage()), sel.len() as int) as i64,
                        ),
                    )
                } else {
                    None
                }
            }
    }

    /// The row with the higher mean comes first.
    pub open spec fn best_first() -> spec_fn((String, Decimal), (String, Decimal)) -> bool {
        |a: (String, Decimal), b: (String, Decimal)| a.1 > b.1
    }

    /// The mean attendance of each class in a term, the highest first: a
    /// row for each class of whose students the table holds a summary of
    /// the term.
    pub fn get_rate_by_class(
        &self,
        summaries: &Vec<AttendanceSummary>,
        students: &Vec<Student>,
        classes: &Vec<Class>,
        term_id: String,
    ) -> (r: Vec<(String, Decimal)>)
        ensures
            r@ == ordered(
                classes@.filter_map(Self::class_row(summaries@, students@, term_id@)),
                Self::best_first(),
            ),
            in_order(r@, Self::best_first()),
    {
        let value = |s: &AttendanceSummary| -> (v: i64)
            ensures
                v == Self::percentage()(*s),
            { s.attendance_percentage };
        let row = |c: &Class| -> (u: Option<(String, Decimal)>)
            ensures
                u == Self::class_row(summaries@, students@, term_id@)(*c),
            {
                let keep = |s: &AttendanceSummary| -> (b: bool)
                    ensures
                        b == Self::of_class(students@, c.id, term_id@)(*s),
                    {
                        s.term_id.is(Table::Terms, &term_id) && match follow(
                            students,
                            &s.student_id,
                        ) {
                            Some(st) => match &st.current_class_id {
                                Some(at) => id_is(&c.id, at.table, &at.key),
                                None => false,
                            },
                            None => false,
                        }
                    };
                let (n, sum) = tally(
                    summaries,
                    keep,
                    &value,
                    Ghost(Self::of_class(students@, c.id, term_id@)),
                    Ghost(Self::percentage()),
                );
                if n > 0 {
                    Some((c.class_name.clone(), mean(sum, n)))
                } else {
                    None
                }
            };
        let rows = collect(classes, row, Ghost(Self::class_row(summaries@, students@, term_id@)));
        let precedes = |a: &(String, Decimal), b: &(String, Decimal)| -> (r: bool)
            ensures
                r == Self::best_first()(*a, *b),
            { a.1 > b.1 };
        proof {
            law_numbers_rank(Self::best_first(), |a: (String, Decimal)| -(a.1 as int));
        }
        arrange(rows, precedes, Ghost(Self::best_first()))
    }
}

} // verus!
