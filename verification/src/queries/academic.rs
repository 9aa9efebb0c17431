//! Sessions and terms, classes, subjects, and the subjects taught in a class.

use vstd::prelude::*;
use vstd::pervasive::VecAdditionalExecFns;
use crate::error::DbResult;
use crate::error::Error;
use crate::error::out_of_range;
use crate::error::range_error;
use crate::models::academic::AcademicSession;
use crate::models::academic::Class;
use crate::models::academic::ClassSubject;
use crate::models::academic::Subject;
use crate::models::academic::Term;
use crate::models::ClassLevel;
use crate::models::User;
use crate::table::any;
use crate::table::collect;
use crate::table::create;
use crate::table::files;
use crate::table::find;
use crate::table::first_index;
use crate::table::first_match;
use crate::table::follow;
use crate::table::follow_opt;
use crate::table::holds;
use crate::table::ids_unique;
use crate::table::in_order;
use crate::table::keyed;
use crate::table::law_numbers_rank;
use crate::table::lemma_filter_single;
use crate::table::lemma_first_index_is_first;
use crate::table::locate_by_id;
use crate::table::ordered;
use crate::table::ranks;
use crate::table::Record;
use crate::table::referred;
use crate::table::referred_opt;
use crate::table::revise_all;
use crate::table::revise_first;
use crate::table::revised_first;
use crate::table::rewrite_all;
use crate::table::rewrite_by_id;
use crate::table::same_identity;
use crate::table::select;
use crate::table::select_ordered;
use crate::text::law_text_order;
use crate::text::str_before;
use crate::text::text_before;
use crate::values::Datetime;
use crate::values::id_is;
use crate::values::is_named;
use crate::values::RecordId;
use crate::values::Table;

verus! {

/// The repository of academic sessions.
pub struct AcademicSessionQ;

impl AcademicSessionQ {
    /// The sessions of one school.
    pub open spec fn of_school(school_id: Seq<char>) -> spec_fn(AcademicSession) -> bool {
        |s: AcademicSession| s.school_id.names(Table::Schools, school_id)
    }

    /// The sessions of one school that are flagged as current.
    pub open spec fn current_of(school_id: Seq<char>) -> spec_fn(AcademicSession) -> bool {
        |s: AcademicSession| s.school_id.names(Table::Schools, school_id) && s.is_current
    }

    /// The session `session_id`, where it belongs to the school.
    pub open spec fn target(school_id: Seq<char>, session_id: Seq<char>) -> spec_fn(
        AcademicSession,
    ) -> bool {
        |s: AcademicSession|
            s.school_id.names(Table::Schools, school_id) && is_named(
                s.id,
                Table::AcademicSessions,
                session_id,
            )
    }

    /// A session flagged as current if it is `session_id`, and as not current otherwise.
    pub open spec fn marked(session_id: Seq<char>) -> spec_fn(AcademicSession) -> AcademicSession {
        |s: AcademicSession|
            AcademicSession { is_current: is_named(s.id, Table::AcademicSessions, session_id), ..s }
    }

    /// A session that starts later comes first.
    pub open spec fn latest_first() -> spec_fn(AcademicSession, AcademicSession) -> bool {
        |a: AcademicSession, b: AcademicSession| a.start_date > b.start_date
    }

    /// Files a session under `key`.
    pub fn create(&self, sessions: &mut Vec<AcademicSession>, data: AcademicSession, key: String)
        -> (r: DbResult<Option<AcademicSession>>)
        ensures
            files(
                old(sessions)@,
                final(sessions)@,
                data.filed(RecordId { table: Table::AcademicSessions, key }),
                r,
            ),
    {
        create(sessions, data, Table::AcademicSessions, key)
    }

    /// The current session of a school: the first that is flagged so.
    pub fn get_current(&self, sessions: &Vec<AcademicSession>, school_id: String) -> (r: Option<
        AcademicSession,
    >)
        ensures
            r == first_match(sessions@, Self::current_of(school_id@)),
            r is Some ==> r.unwrap().is_current && r.unwrap().school_id.names(
                Table::Schools,
                school_id@,
            ),
    {
        let keep = |s: &AcademicSession| -> (b: bool)
            ensures
                b == Self::current_of(school_id@)(*s),
            { s.school_id.is(Table::Schools, &school_id) && s.is_current };
        find(sessions, keep, Ghost(Self::current_of(school_id@)))
    }

    /// The sessions of a school, the one that starts latest first.
    pub fn get_all_by_school(&self, sessions: &Vec<AcademicSession>, school_id: String) -> (r: Vec<
        AcademicSession,
    >)
        ensures
            r@ == ordered(sessions@.filter(Self::of_school(school_id@)), Self::latest_first()),
            in_order(r@, Self::latest_first()),
            forall|i: int|
                0 <= i < r.len() ==> (#[trigger] r@[i]).school_id.names(Table::Schools, school_id@),
    {
        let keep = |s: &AcademicSession| -> (b: bool)
            ensures
                b == Self::of_school(school_id@)(*s),
            { s.school_id.is(Table::Schools, &school_id) };
        let precedes = |a: &AcademicSession, b: &AcademicSession| -> (r: bool)
            ensures
                r == Self::latest_first()(*a, *b),
            { a.start_date > b.start_date };
        proof {
            law_numbers_rank(Self::latest_first(), |a: AcademicSession| -(a.start_date as int));
        }
        select_ordered(
            sessions,
            keep,
            precedes,
            Ghost(Self::of_school(school_id@)),
            Ghost(Self::latest_first()),
        )
    }

    /// Makes `session_id` the current session of the school: in one step,
    /// every session of the school is flagged as current if it is that
    /// session, and as not current otherwise. Where the school has no such
    /// session, nothing changes.
    pub fn set_current(
        &self,
        sessions: &mut Vec<AcademicSession>,
        school_id: String,
        session_id: String,
    ) -> (r: DbResult<()>)
        ensures
            match r {
                Ok(_) => {
                    &&& first_match(old(sessions)@, Self::target(school_id@, session_id@)) is Some
                    &&& final(sessions)@ == revise_all(
                        old(sessions)@,
                        Self::of_school(school_id@),
                        Self::marked(session_id@),
                    )
                },
                Err(e) => {
                    &&& first_match(old(sessions)@, Self::target(school_id@, session_id@)) is None
                    &&& final(sessions)@ == old(sessions)@
                    &&& e == Error::NotFound(session_id)
                },
            },
    {
        let aimed = |s: &AcademicSession| -> (b: bool)
            ensures
                b == Self::target(school_id@, session_id@)(*s),
            {
                s.school_id.is(Table::Schools, &school_id) && id_is(
                    &s.id,
                    Table::AcademicSessions,
                    &session_id,
                )
            };
        if !any(sessions, aimed, Ghost(Self::target(school_id@, session_id@))) {
            return Err(Error::NotFound(session_id));
        }
        let keep = |s: &AcademicSession| -> (b: bool)
            ensures
                b == Self::of_school(school_id@)(*s),
            { s.school_id.is(Table::Schools, &school_id) };
        let change = |s: &AcademicSession| -> (n: AcademicSession)
            ensures
                n == Self::marked(session_id@)(*s),
            {
                let mut n = s.clone();
                n.is_current = id_is(&s.id, Table::AcademicSessions, &session_id);
                n
            };
        rewrite_all(
            sessions,
            keep,
            change,
            Ghost(Self::of_school(school_id@)),
            Ghost(Self::marked(session_id@)),
        );
        Ok(())
    }

    /// Once a session has been made current, the school has exactly one
    /// current session, whatever was flagged before.
    pub proof fn law_one_current(
        before: Seq<AcademicSession>,
        school_id: Seq<char>,
        session_id: Seq<char>,
    )
        requires
            ids_unique(before),
            first_match(before, Self::target(school_id, session_id)) is Some,
        ensures
            revise_all(before, Self::of_school(school_id), Self::marked(session_id)).filter(
                Self::current_of(school_id),
            ).len() == 1,
    {
        let after = revise_all(before, Self::of_school(school_id), Self::marked(session_id));
        lemma_first_index_is_first(before, Self::target(school_id, session_id));
        let i = first_index(before, Self::target(school_id, session_id));
        assert(Self::current_of(school_id)(after[i]));
        assert forall|j: int| 0 <= j < after.len() && j != i implies !Self::current_of(school_id)(
            #[trigger] after[j],
        ) by {
            if Self::current_of(school_id)(after[j]) {
                assert(is_named(before[j].id, Table::AcademicSessions, session_id));
                if i < j {
                    assert(same_identity(
                        before[i].record_id(),
                        before[j].record_id(),
                    ));
                } else {
                    assert(same_identity(
                        before[j].record_id(),
                        before[i].record_id(),
                    ));
                }
            }
        }
        lemma_filter_single(after, Self::current_of(school_id), i);
    }
}

/// The repository of terms.
pub struct TermQ;

impl TermQ {
    /// The terms of one session.
    pub open spec fn of_session(session_id: Seq<char>) -> spec_fn(Term) -> bool {
        |t: Term| t.session_id.names(Table::AcademicSessions, session_id)
    }

    /// The terms of one session that are flagged as current.
    pub open spec fn current_of(session_id: Seq<char>) -> spec_fn(Term) -> bool {
        |t: Term| t.session_id.names(Table::AcademicSessions, session_id) && t.is_current
    }

    /// The term `term_id`, where it belongs to the session.
    pub open spec fn target(session_id: Seq<char>, term_id: Seq<char>) -> spec_fn(Term) -> bool {
        |t: Term|
            t.session_id.names(Table::AcademicSessions, session_id) && is_named(
                t.id,
                Table::Terms,
                term_id,
            )
    }

    /// A term flagged as current if it is `term_id`, and as not current otherwise.
    pub open spec fn marked(term_id: Seq<char>) -> spec_fn(Term) -> Term {
        |t: Term| Term { is_current: is_named(t.id, Table::Terms, term_id), ..t }
    }

    /// A term of a lower number comes first.
    pub open spec fn by_number() -> spec_fn(Term, Term) -> bool {
        |a: Term, b: Term| a.term_number < b.term_number
    }

    /// Files a term under `key`.
    pub fn create(&self, terms: &mut Vec<Term>, data: Term, key: String) -> (r: DbResult<
        Option<Term>,
    >)
        ensures
            files(old(terms)@, final(terms)@, data.filed(RecordId { table: Table::Terms, key }), r),
    {
        create(terms, data, Table::Terms, key)
    }

    /// The current term of a session: the first that is flagged so.
    pub fn get_current(&self, terms: &Vec<Term>, session_id: String) -> (r: Option<Term>)
        ensures
            r == first_match(terms@, Self::current_of(session_id@)),
            r is Some ==> r.unwrap().is_current && r.unwrap().session_id.names(
                Table::AcademicSessions,
                session_id@,
            ),
    {
        let keep = |t: &Term| -> (b: bool)
            ensures
                b == Self::current_of(session_id@)(*t),
            { t.session_id.is(Table::AcademicSessions, &session_id) && t.is_current };
        find(terms, keep, Ghost(Self::current_of(session_id@)))
    }

    /// The terms of a session, by their number.
    pub fn get_by_session(&self, terms: &Vec<Term>, session_id: String) -> (r: Vec<Term>)
        ensures
            r@ == ordered(terms@.filter(Self::of_session(session_id@)), Self::by_number()),
            in_order(r@, Self::by_number()),
            forall|i: int|
                0 <= i < r.len() ==> (#[trigger] r@[i]).session_id.names(
                    Table::AcademicSessions,
                    session_id@,
                ),
    {
        let keep = |t: &Term| -> (b: bool)
            ensures
                b == Self::of_session(session_id@)(*t),
            { t.session_id.is(Table::AcademicSessions, &session_id) };
        let precedes = |a: &Term, b: &Term| -> (r: bool)
            ensures
                r == Self::by_number()(*a, *b),
            { a.term_number < b.term_number };
        proof {
            law_numbers_rank(Self::by_number(), |a: Term| a.term_number as int);
        }
        select_ordered(
            terms,
            keep,
            precedes,
            Ghost(Self::of_session(session_id@)),
            Ghost(Self::by_number()),
        )
    }

    /// Makes `term_id` the current term of the session: in one step, every
    /// term of the session is flagged as current if it is that term, and as
    /// not current otherwise. Where the session has no such term, nothing
    /// changes.
    pub fn set_current(&self, terms: &mut Vec<Term>, session_id: String, term_id: String) -> (r:
        DbResult<()>)
        ensures
            match r {
                Ok(_) => {
                    &&& first_match(old(terms)@, Self::target(session_id@, term_id@)) is Some
                    &&& final(terms)@ == revise_all(
                        old(terms)@,
                        Self::of_session(session_id@),
                        Self::marked(term_id@),
                    )
                },
                Err(e) => {
                    &&& first_match(old(terms)@, Self::target(session_id@, term_id@)) is None
                    &&& final(terms)@ == old(terms)@
                    &&& e == Error::NotFound(term_id)
                },
            },
    {
        let aimed = |t: &Term| -> (b: bool)
            ensures
                b == Self::target(session_id@, term_id@)(*t),
            {
                t.session_id.is(Table::AcademicSessions, &session_id) && id_is(
                    &t.id,
                    Table::Terms,
                    &term_id,
                )
            };
        if !any(terms, aimed, Ghost(Self::target(session_id@, term_id@))) {
            return Err(Error::NotFound(term_id));
        }
        let keep = |t: &Term| -> (b: bool)
            ensures
                b == Self::of_session(session_id@)(*t),
            { t.session_id.is(Table::AcademicSessions, &session_id) };
        let change = |t: &Term| -> (n: Term)
            ensures
                n == Self::marked(term_id@)(*t),
            {
                let mut n = t.clone();
                n.is_current = id_is(&t.id, Table::Terms, &term_id);
                n
            };
        rewrite_all(
            terms,
            keep,
            change,
            Ghost(Self::of_session(session_id@)),
            Ghost(Self::marked(term_id@)),
        );
        Ok(())
    }

    /// Once a term has been made current, the session has exactly one
    /// current term, whatever was flagged before.
    pub proof fn law_one_current(before: Seq<Term>, session_id: Seq<char>, term_id: Seq<char>)
        requires
            ids_unique(before),
            first_match(before, Self::target(session_id, term_id)) is Some,
        ensures
            revise_all(before, Self::of_session(session_id), Self::marked(term_id)).filter(
                Self::current_of(session_id),
            ).len() == 1,
    {
        let after = revise_all(before, Self::of_session(session_id), Self::marked(term_id));
        lemma_first_index_is_first(before, Self::target(session_id, term_id));
        let i = first_index(before, Self::target(session_id, term_id));
        assert(Self::current_of(session_id)(after[i]));
        assert forall|j: int| 0 <= j < after.len() && j != i implies !Self::current_of(session_id)(
            #[trigger] after[j],
        ) by {
            if Self::current_of(session_id)(after[j]) {
                assert(is_named(before[j].id, Table::Terms, term_id));
                if i < j {
                    assert(same_identity(
                        before[i].record_id(),
                        before[j].record_id(),
                    ));
                } else {
                    assert(same_identity(
                        before[j].record_id(),
                        before[i].record_id(),
                    ));
                }
            }
        }
        lemma_filter_single(after, Self::current_of(session_id), i);
    }
}


/// The repository of classes.
pub struct ClassQ;

impl ClassQ {
    /// The classes of one school.
    pub open spec fn of_school(school_id: Seq<char>) -> spec_fn(Class) -> bool {
        |c: Class| c.school_id.names(Table::Schools, school_id)
    }

    /// The classes whose class teacher is `teacher_id`.
    pub open spec fn led_by(teacher_id: Seq<char>) -> spec_fn(Class) -> bool {
        |c: Class| is_named(c.class_teacher_id, Table::Users, teacher_id)
    }

    /// A class of a level whose name sorts lower comes first; within a
    /// level, the class whose name sorts lower.
    pub open spec fn by_level_and_name() -> spec_fn(Class, Class) -> bool {
        |a: Class, b: Class|
            text_before(a.class_level.name(), b.class_level.name()) || (a.class_level
                == b.class_level && text_before(a.class_name@, b.class_name@))
    }

    /// A class with `teacher_id` as its class teacher, as of `now`.
    pub open spec fn taught_by(teacher_id: String, now: Datetime) -> spec_fn(Class) -> Class {
        |c: Class|
            Class {
                class_teacher_id: Some(RecordId { table: Table::Users, key: teacher_id }),
                updated_at: now,
                ..c
            }
    }

    /// A class with one student more, as of `now`.
    pub open spec fn enrolled(now: Datetime) -> spec_fn(Class) -> Class {
        |c: Class|
            Class { current_enrollment: (c.current_enrollment + 1) as i32, updated_at: now, ..c }
    }

    /// Classes are listed by level and name as a ranking lists them.
    pub proof fn law_by_level_and_name_ranks()
        ensures
            ranks(Self::by_level_and_name()),
    {
        let before = Self::by_level_and_name();
        assert forall|a: Class, b: Class| #[trigger] before(a, b) implies !before(b, a) by {
            law_text_order(a.class_level.name(), b.class_level.name(), a.class_level.name());
            law_text_order(a.class_name@, b.class_name@, a.class_name@);
        }
        assert forall|a: Class, b: Class, c: Class|
            !(#[trigger] before(a, b)) && !(#[trigger] before(b, c)) implies !before(a, c) by {
            law_text_order(a.class_level.name(), b.class_level.name(), c.class_level.name());
            law_text_order(a.class_name@, b.class_name@, c.class_name@);
            if a.class_level.name() == b.class_level.name() {
                ClassLevel::law_names_differ(a.class_level, b.class_level);
            }
            if b.class_level.name() == c.class_level.name() {
                ClassLevel::law_names_differ(b.class_level, c.class_level);
            }
        }
    }

    /// Files a class under `key`.
    pub fn create(&self, classes: &mut Vec<Class>, data: Class, key: String) -> (r: DbResult<
        Option<Class>,
    >)
        ensures
            files(
                old(classes)@,
                final(classes)@,
                data.filed(RecordId { table: Table::Classes, key }),
                r,
            ),
    {
        create(classes, data, Table::Classes, key)
    }

    /// The classes of a school, by level and name.
    pub fn get_by_school(&self, classes: &Vec<Class>, school_id: String) -> (r: Vec<Class>)
        ensures
            r@ == ordered(classes@.filter(Self::of_school(school_id@)), Self::by_level_and_name()),
            in_order(r@, Self::by_level_and_name()),
            forall|i: int|
                0 <= i < r.len() ==> (#[trigger] r@[i]).school_id.names(Table::Schools, school_id@),
    {
        let keep = |c: &Class| -> (b: bool)
            ensures
                b == Self::of_school(school_id@)(*c),
            { c.school_id.is(Table::Schools, &school_id) };
        let precedes = |a: &Class, b: &Class| -> (r: bool)
            ensures
                r == Self::by_level_and_name()(*a, *b),
            {
                str_before(a.class_level.as_str(), b.class_level.as_str()) || (a.class_level
                    == b.class_level && str_before(a.class_name.as_str(), b.class_name.as_str()))
            };
        proof {
            Self::law_by_level_and_name_ranks();
        }
        select_ordered(
            classes,
            keep,
            precedes,
            Ghost(Self::of_school(school_id@)),
            Ghost(Self::by_level_and_name()),
        )
    }

    /// The classes that a teacher leads, in the order of the table.
    pub fn get_by_class_teacher(&self, classes: &Vec<Class>, teacher_id: String) -> (r: Vec<Class>)
        ensures
            r@ == classes@.filter(Self::led_by(teacher_id@)),
    {
        let keep = |c: &Class| -> (b: bool)
            ensures
                b == Self::led_by(teacher_id@)(*c),
            { id_is(&c.class_teacher_id, Table::Users, &teacher_id) };
        select(classes, keep, Ghost(Self::led_by(teacher_id@)))
    }

    /// Gives a class its class teacher.
    pub fn update_teacher(
        &self,
        classes: &mut Vec<Class>,
        class_id: String,
        teacher_id: String,
        now: Datetime,
    ) -> (r: Option<Class>)
        ensures
            final(classes)@ == revise_first(
                old(classes)@,
                keyed(Table::Classes, class_id@),
                Self::taught_by(teacher_id, now),
            ),
            r == revised_first(
                old(classes)@,
                keyed(Table::Classes, class_id@),
                Self::taught_by(teacher_id, now),
            ),
            r is Some <==> holds(old(classes)@, Table::Classes, class_id@),
    {
        let ghost apply = Self::taught_by(teacher_id, now);
        let change = |c: &Class| -> (n: Class)
            ensures
                n == apply(*c),
            {
                let mut n = c.clone();
                n.class_teacher_id = Some(RecordId::new(Table::Users, teacher_id.clone()));
                n.updated_at = now;
                n
            };
        rewrite_by_id(
            classes,
            Table::Classes,
            &class_id,
            change,
            Ghost(apply),
        )
    }

    /// Counts one more student into a class. Where the counter cannot go
    /// higher, nothing changes and the store's range error is returned.
    pub fn increment_enrollment(&self, classes: &mut Vec<Class>, class_id: String, now: Datetime)
        -> (r: DbResult<Option<Class>>)
        ensures
            match r {
                Ok(c) => {
                    &&& final(classes)@ == revise_first(
                        old(classes)@,
                        keyed(Table::Classes, class_id@),
                        Self::enrolled(now),
                    )
                    &&& c == revised_first(
                        old(classes)@,
                        keyed(Table::Classes, class_id@),
                        Self::enrolled(now),
                    )
                    &&& c is Some <==> holds(old(classes)@, Table::Classes, class_id@)
                    &&& c is Some ==> c.unwrap().current_enrollment == first_match(
                        old(classes)@,
                        keyed(Table::Classes, class_id@),
                    ).unwrap().current_enrollment + 1
                },
                Err(e) => {
                    &&& final(classes)@ == old(classes)@
                    &&& out_of_range(e)
                    &&& first_match(old(classes)@, keyed(Table::Classes, class_id@)) matches Some(c)
                        && c.current_enrollment == i32::MAX
                },
            },
    {
        match locate_by_id(classes, Table::Classes, &class_id) {
            Some(i) => {
                if classes[i].current_enrollment == i32::MAX {
                    return Err(range_error());
                }
                let mut n = classes[i].clone();
                n.current_enrollment = n.current_enrollment + 1;
                n.updated_at = now;
                let back = n.clone();
                classes.set(i, n);
                Ok(Some(back))
            },
            None => Ok(None),
        }
    }
}

/// The repository of subjects.
pub struct SubjectQ;

impl SubjectQ {
    /// The subjects of one school.
    pub open spec fn of_school(school_id: Seq<char>) -> spec_fn(Subject) -> bool {
        |s: Subject| s.school_id.names(Table::Schools, school_id)
    }

    /// The subject whose name sorts lower comes first.
    pub open spec fn by_name() -> spec_fn(Subject, Subject) -> bool {
        |a: Subject, b: Subject| text_before(a.subject_name@, b.subject_name@)
    }

    /// Subjects are listed by name as a ranking lists them.
    pub proof fn law_by_name_ranks()
        ensures
            ranks(Self::by_name()),
    {
        let before = Self::by_name();
        assert forall|a: Subject, b: Subject| #[trigger] before(a, b) implies !before(b, a) by {
            law_text_order(a.subject_name@, b.subject_name@, a.subject_name@);
        }
        assert forall|a: Subject, b: Subject, c: Subject|
            !(#[trigger] before(a, b)) && !(#[trigger] before(b, c)) implies !before(a, c) by {
            law_text_order(a.subject_name@, b.subject_name@, c.subject_name@);
        }
    }

    /// Files a subject under `key`.
    pub fn create(&self, subjects: &mut Vec<Subject>, data: Subject, key: String) -> (r: DbResult<
        Option<Subject>,
    >)
        ensures
            files(
                old(subjects)@,
                final(subjects)@,
                data.filed(RecordId { table: Table::Subjects, key }),
                r,
            ),
    {
        create(subjects, data, Table::Subjects, key)
    }

    /// The subjects of a school, by name.
    pub fn get_by_school(&self, subjects: &Vec<Subject>, school_id: String) -> (r: Vec<Subject>)
        ensures
            r@ == ordered(subjects@.filter(Self::of_school(school_id@)), Self::by_name()),
            in_order(r@, Self::by_name()),
            forall|i: int|
                0 <= i < r.len() ==> (#[trigger] r@[i]).school_id.names(Table::Schools, school_id@),
    {
        let keep = |s: &Subject| -> (b: bool)
            ensures
                b == Self::of_school(school_id@)(*s),
            { s.school_id.is(Table::Schools, &school_id) };
        let precedes = |a: &Subject, b: &Subject| -> (r: bool)
            ensures
                r == Self::by_name()(*a, *b),
            { str_before(a.subject_name.as_str(), b.subject_name.as_str()) };
        proof {
            Self::law_by_name_ranks();
        }
        select_ordered(
            subjects,
            keep,
            precedes,
            Ghost(Self::of_school(school_id@)),
            Ghost(Self::by_name()),
        )
    }
}

/// The repository of the subjects taught in a class.
pub struct ClassSubjectQ;

impl ClassSubjectQ {
    /// An edge of the class `class_id`, with the subject and the teacher
    /// that it refers to; nothing for an edge of another class.
    pub open spec fn in_class(subjects: Seq<Subject>, users: Seq<User>, class_id: Seq<char>)
        -> spec_fn(ClassSubject) -> Option<(ClassSubject, Option<Subject>, Option<User>)> {
        |cs: ClassSubject|
            if cs.class_id.names(Table::Classes, class_id) {
                Some((cs, referred(subjects, cs.subject_id), referred_opt(users, cs.teacher_id)))
            } else {
                None
            }
    }

    /// An edge of the teacher `teacher_id`, with the class and the subject
    /// that it refers to; nothing for an edge of another teacher.
    pub open spec fn of_teacher(classes: Seq<Class>, subjects: Seq<Subject>, teacher_id: Seq<char>)
        -> spec_fn(ClassSubject) -> Option<(ClassSubject, Option<Class>, Option<Subject>)> {
        |cs: ClassSubject|
            if is_named(cs.teacher_id, Table::Users, teacher_id) {
                Some((cs, referred(classes, cs.class_id), referred(subjects, cs.subject_id)))
            } else {
                None
            }
    }

    /// An edge with `teacher_id` as the teacher.
    pub open spec fn taught_by(teacher_id: String) -> spec_fn(ClassSubject) -> ClassSubject {
        |cs: ClassSubject|
            ClassSubject {
                teacher_id: Some(RecordId { table: Table::Users, key: teacher_id }),
                ..cs
            }
    }

    /// Files the edge from a class to a subject under `key`.
    pub fn assign(&self, class_subjects: &mut Vec<ClassSubject>, data: ClassSubject, key: String)
        -> (r: DbResult<Option<ClassSubject>>)
        ensures
            files(
                old(class_subjects)@,
                final(class_subjects)@,
                data.filed(RecordId { table: Table::ClassSubjects, key }),
                r,
            ),
    {
        create(class_subjects, data, Table::ClassSubjects, key)
    }

    /// The subjects taught in a class, each with the subject and its teacher.
    pub fn get_by_class(
        &self,
        class_subjects: &Vec<ClassSubject>,
        subjects: &Vec<Subject>,
        users: &Vec<User>,
        class_id: String,
    ) -> (r: Vec<(ClassSubject, Option<Subject>, Option<User>)>)
        ensures
            r@ == class_subjects@.filter_map(Self::in_class(subjects@, users@, class_id@)),
    {
        let derive = |cs: &ClassSubject| -> (u: Option<
            (ClassSubject, Option<Subject>, Option<User>),
        >)
            ensures
                u == Self::in_class(subjects@, users@, class_id@)(*cs),
            {
                if cs.class_id.is(Table::Classes, &class_id) {
                    Some((cs.clone(), follow(subjects, &cs.subject_id), follow_opt(users, &cs.teacher_id)))
                } else {
                    None
                }
            };
        collect(class_subjects, derive, Ghost(Self::in_class(subjects@, users@, class_id@)))
    }

    /// What a teacher teaches: each edge with its class and its subject.
    pub fn get_by_teacher(
        &self,
        class_subjects: &Vec<ClassSubject>,
        classes: &Vec<Class>,
        subjects: &Vec<Subject>,
        teacher_id: String,
    ) -> (r: Vec<(ClassSubject, Option<Class>, Option<Subject>)>)
        ensures
            r@ == class_subjects@.filter_map(Self::of_teacher(classes@, subjects@, teacher_id@)),
    {
        let derive = |cs: &ClassSubject| -> (u: Option<
            (ClassSubject, Option<Class>, Option<Subject>),
        >)
            ensures
                u == Self::of_teacher(classes@, subjects@, teacher_id@)(*cs),
            {
                if id_is(&cs.teacher_id, Table::Users, &teacher_id) {
                    Some((cs.clone(), follow(classes, &cs.class_id), follow(subjects, &cs.subject_id)))
                } else {
                    None
                }
            };
        collect(class_subjects, derive, Ghost(Self::of_teacher(classes@, subjects@, teacher_id@)))
    }

    /// Gives a subject of a class its teacher.
    pub fn update_teacher(
        &self,
        class_subjects: &mut Vec<ClassSubject>,
        class_subject_id: String,
        teacher_id: String,
    ) -> (r: Option<ClassSubject>)
        ensures
            final(class_subjects)@ == revise_first(
                old(class_subjects)@,
                keyed(Table::ClassSubjects, class_subject_id@),
                Self::taught_by(teacher_id),
            ),
            r == revised_first(
                old(class_subjects)@,
                keyed(Table::ClassSubjects, class_subject_id@),
                Self::taught_by(teacher_id),
            ),
            r is Some <==> holds(old(class_subjects)@, Table::ClassSubjects, class_subject_id@),
    {
        let ghost apply = Self::taught_by(teacher_id);
        let change = |cs: &ClassSubject| -> (n: ClassSubject)
            ensures
                n == apply(*cs),
            {
                let mut n = cs.clone();
                n.teacher_id = Some(RecordId::new(Table::Users, teacher_id.clone()));
                n
            };
        rewrite_by_id(
            class_subjects,
            Table::ClassSubjects,
            &class_subject_id,
            change,
            Ghost(apply),
        )
    }
}

} // verus!
