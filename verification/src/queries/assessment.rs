//! Assessments and scores, grading tables, and report cards.

use vstd::prelude::*;
use crate::error::DbResult;
use crate::helpers::create_update_dtos::EnterScoreDto;
use crate::models::academic::Class;
use crate::models::academic::Subject;
use crate::models::academic::Term;
use crate::models::assessments_nd_grading::Assessment;
use crate::models::assessments_nd_grading::GradingScheme;
use crate::models::assessments_nd_grading::ReportCard;
use crate::models::assessments_nd_grading::ReportCardScore;
use crate::models::assessments_nd_grading::StudentScore;
use crate::models::Student;
use crate::table::capped;
use crate::table::collect;
use crate::table::convert;
use crate::table::create;
use crate::table::files;
use crate::table::find;
use crate::table::find_by_id;
use crate::table::first_match;
use crate::table::first_of;
use crate::table::follow;
use crate::table::holds;
use crate::table::in_order;
use crate::table::keyed;
use crate::table::law_numbers_rank;
use crate::table::lemma_first_index;
use crate::table::limit_or;
use crate::table::limited;
use crate::table::ordered;
use crate::table::ranks;
use crate::table::Record;
use crate::table::referred;
use crate::table::revise_all;
use crate::table::revise_first;
use crate::table::revised_first;
use crate::table::rewrite_all;
use crate::table::rewrite_by_id;
use crate::table::select;
use crate::table::select_ordered;
use crate::table::tally;
use crate::table::total;
use crate::text::law_text_order;
use crate::text::str_before;
use crate::text::text_before;
use crate::values::Datetime;
use crate::values::Decimal;
use crate::values::earlier;
use crate::values::higher;
use crate::values::id_is;
use crate::values::is_earlier;
use crate::values::is_higher;
use crate::values::is_named;
use crate::values::mean;
use crate::values::quotient;
use crate::values::RecordId;
use crate::values::standing;
use crate::values::Table;
use crate::values::Total;

verus! {

/// The repository of assessments.
pub struct AssessmentQ;

impl AssessmentQ {
    /// The assessments of one class in one subject and one term.
    pub open spec fn set_for(class_id: Seq<char>, subject_id: Seq<char>, term_id: Seq<char>)
        -> spec_fn(Assessment) -> bool {
        |a: Assessment|
            a.class_id.names(Table::Classes, class_id) && a.subject_id.names(
                Table::Subjects,
                subject_id,
            ) && a.term_id.names(Table::Terms, term_id)
    }

    /// The assessments of one class in one term.
    pub open spec fn of_class_term(class_id: Seq<char>, term_id: Seq<char>) -> spec_fn(
        Assessment,
    ) -> bool {
        |a: Assessment|
            a.class_id.names(Table::Classes, class_id) && a.term_id.names(Table::Terms, term_id)
    }

    /// The assessment of a kind whose name sorts lower comes first.
    pub open spec fn by_kind() -> spec_fn(Assessment, Assessment) -> bool {
        |a: Assessment, b: Assessment|
            text_before(a.assessment_type.name(), b.assessment_type.name())
    }

    /// Assessments are listed by kind as a ranking lists them.
    pub proof fn law_by_kind_ranks()
        ensures
            ranks(Self::by_kind()),
    {
        let before = Self::by_kind();
        assert forall|a: Assessment, b: Assessment| #[trigger] before(a, b) implies !before(b, a) by {
            law_text_order(
                a.assessment_type.name(),
                b.assessment_type.name(),
                a.assessment_type.name(),
            );
        }
        assert forall|a: Assessment, b: Assessment, c: Assessment|
            !(#[trigger] before(a, b)) && !(#[trigger] before(b, c)) implies !before(a, c) by {
            law_text_order(
                a.assessment_type.name(),
                b.assessment_type.name(),
                c.assessment_type.name(),
            );
        }
    }

    /// Files an assessment under `key`.
    pub fn create(&self, assessments: &mut Vec<Assessment>, data: Assessment, key: String) -> (r:
        DbResult<Option<Assessment>>)
        ensures
            files(
                old(assessments)@,
                final(assessments)@,
                data.filed(RecordId { table: Table::Assessments, key }),
                r,
            ),
    {
        create(assessments, data, Table::Assessments, key)
    }

    /// The assessments of a class in a subject and a term, by kind.
    pub fn get_by_class_subject_term(
        &self,
        assessments: &Vec<Assessment>,
        class_id: String,
        subject_id: String,
        term_id: String,
    ) -> (r: Vec<Assessment>)
        ensures
            r@ == ordered(
                assessments@.filter(Self::set_for(class_id@, subject_id@, term_id@)),
                Self::by_kind(),
            ),
            in_order(r@, Self::by_kind()),
    {
        let keep = |a: &Assessment| -> (b: bool)
            ensures
                b == Self::set_for(class_id@, subject_id@, term_id@)(*a),
            {
                a.class_id.is(Table::Classes, &class_id) && a.subject_id.is(
                    Table::Subjects,
                    &subject_id,
                ) && a.term_id.is(Table::Terms, &term_id)
            };
        let precedes = |a: &Assessment, b: &Assessment| -> (r: bool)
            ensures
                r == Self::by_kind()(*a, *b),
            { str_before(a.assessment_type.as_str(), b.assessment_type.as_str()) };
        proof {
            Self::law_by_kind_ranks();
        }
        select_ordered(
            assessments,
            keep,
            precedes,
            Ghost(Self::set_for(class_id@, subject_id@, term_id@)),
            Ghost(Self::by_kind()),
        )
    }

    /// The assessments of a class in a term, in the order of the table.
    pub fn get_by_class_term(&self, assessments: &Vec<Assessment>, class_id: String, term_id: String)
        -> (r: Vec<Assessment>)
        ensures
            r@ == assessments@.filter(Self::of_class_term(class_id@, term_id@)),
    {
        let keep = |a: &Assessment| -> (b: bool)
            ensures
                b == Self::of_class_term(class_id@, term_id@)(*a),
            { a.class_id.is(Table::Classes, &class_id) && a.term_id.is(Table::Terms, &term_id) };
        select(assessments, keep, Ghost(Self::of_class_term(class_id@, term_id@)))
    }
}

/// The repository of scores.
pub struct StudentScoreQ;

impl StudentScoreQ {
    /// The score that is filed for what was entered at `now`: not yet verified.
    pub open spec fn entered(data: EnterScoreDto, now: Datetime) -> StudentScore {
        StudentScore {
            id: None,
            assessment_id: data.assessment_id,
            student_id: data.student_id,
            score_obtained: Some(data.score_obtained),
            remarks: data.remarks,
            entered_by: None,
            entered_at: now,
            updated_at: now,
            verified: false,
            verified_by: None,
            verified_at: None,
        }
    }

    /// The scores of one student in one assessment.
    pub open spec fn of_student_in(assessment_id: Seq<char>, student_id: Seq<char>) -> spec_fn(
        StudentScore,
    ) -> bool {
        |s: StudentScore|
            s.assessment_id.names(Table::Assessments, assessment_id) && s.student_id.names(
                Table::Students,
                student_id,
            )
    }

    /// The scores in one assessment.
    pub open spec fn in_assessment(assessment_id: Seq<char>) -> spec_fn(StudentScore) -> bool {
        |s: StudentScore| s.assessment_id.names(Table::Assessments, assessment_id)
    }

    /// The scores in one assessment that hold a number.
    pub open spec fn marked_in(assessment_id: Seq<char>) -> spec_fn(StudentScore) -> bool {
        |s: StudentScore|
            s.assessment_id.names(Table::Assessments, assessment_id) && s.score_obtained is Some
    }

    /// The number that a score holds; zero where it holds none.
    pub open spec fn marks() -> spec_fn(StudentScore) -> int {
        |s: StudentScore|
            match s.score_obtained {
                Some(v) => v as int,
                None => 0,
            }
    }

    /// A score with `new_score` as its number, as of `now`.
    pub open spec fn rescored(new_score: Decimal, now: Datetime) -> spec_fn(StudentScore)
        -> StudentScore {
        |s: StudentScore| StudentScore { score_obtained: Some(new_score), updated_at: now, ..s }
    }

    /// A score verified by `admin_id` at `now`, and stamped as changed then.
    pub open spec fn verified_by(admin_id: String, now: Datetime) -> spec_fn(StudentScore)
        -> StudentScore {
        |s: StudentScore|
            StudentScore {
                verified: true,
                verified_by: Some(RecordId { table: Table::Users, key: admin_id }),
                verified_at: Some(now),
                updated_at: now,
                ..s
            }
    }

    /// The scores of one student in the assessments of one subject.
    pub open spec fn in_subject(
        assessments: Seq<Assessment>,
        student_id: Seq<char>,
        subject_id: Seq<char>,
    ) -> spec_fn(StudentScore) -> bool {
        |s: StudentScore|
            s.student_id.names(Table::Students, student_id) && (referred(
                assessments,
                s.assessment_id,
            ) matches Some(a) && a.subject_id.names(Table::Subjects, subject_id))
    }

    /// When the assessment of a score was held, as far as the table of
    /// assessments tells.
    pub open spec fn held_on(assessments: Seq<Assessment>, s: StudentScore) -> Option<Datetime> {
        match referred(assessments, s.assessment_id) {
            Some(a) => a.assessment_date,
            None => None,
        }
    }

    /// The score whose assessment was held earlier comes first.
    pub open spec fn by_date(assessments: Seq<Assessment>) -> spec_fn(StudentScore, StudentScore)
        -> bool {
        |a: StudentScore, b: StudentScore|
            earlier(Self::held_on(assessments, a), Self::held_on(assessments, b))
    }

    /// A score with its assessment.
    pub open spec fn with_assessment(assessments: Seq<Assessment>) -> spec_fn(StudentScore) -> (
        StudentScore,
        Option<Assessment>,
    ) {
        |s: StudentScore| (s, referred(assessments, s.assessment_id))
    }

    /// The scores of one student in the assessments that one term held in
    /// the subject filed as `subject`.
    pub open spec fn in_subject_term(
        assessments: Seq<Assessment>,
        subject: Option<RecordId>,
        student_id: Seq<char>,
        term_id: Seq<char>,
    ) -> spec_fn(StudentScore) -> bool {
        |s: StudentScore|
            s.student_id.names(Table::Students, student_id) && (referred(
                assessments,
                s.assessment_id,
            ) matches Some(a) && a.term_id.names(Table::Terms, term_id) && is_named(
                subject,
                a.subject_id.table,
                a.subject_id.key@,
            ))
    }

    /// The row of one subject in a student's totals; nothing for a subject
    /// in which the student has no score in the term.
    pub open spec fn subject_row(
        scores: Seq<StudentScore>,
        assessments: Seq<Assessment>,
        student_id: Seq<char>,
        term_id: Seq<char>,
    ) -> spec_fn(Subject) -> Option<(RecordId, Total)> {
        |j: Subject|
            {
                let sel = scores.filter(
                    Self::in_subject_term(assessments, j.id, student_id, term_id),
                );
                if j.id is Some && sel.len() > 0 {
                    Some((j.id.unwrap(), total(sel, Self::marks()) as i128))
                } else {
                    None
                }
            }
    }

    /// Files the score that was entered, under `key`.
    pub fn enter(&self, scores: &mut Vec<StudentScore>, data: EnterScoreDto, key: String, now: Datetime)
        -> (r: DbResult<Option<StudentScore>>)
        ensures
            files(
                old(scores)@,
                final(scores)@,
                Self::entered(data, now).filed(RecordId { table: Table::StudentScores, key }),
                r,
            ),
    {
        let record = StudentScore {
            id: None,
            assessment_id: data.assessment_id,
            student_id: data.student_id,
            score_obtained: Some(data.score_obtained),
            remarks: data.remarks,
            entered_by: None,
            entered_at: now,
            updated_at: now,
            verified: false,
            verified_by: None,
            verified_at: None,
        };
        create(scores, record, Table::StudentScores, key)
    }

    /// Gives every score of a student in an assessment the number
    /// `new_score`, and hands back the first of them.
    pub fn update(
        &self,
        scores: &mut Vec<StudentScore>,
        assessment_id: String,
        student_id: String,
        new_score: Decimal,
        now: Datetime,
    ) -> (r: Option<StudentScore>)
        ensures
            final(scores)@ == revise_all(
                old(scores)@,
                Self::of_student_in(assessment_id@, student_id@),
                Self::rescored(new_score, now),
            ),
            r == first_of(
                old(scores)@.filter(Self::of_student_in(assessment_id@, student_id@)).map_values(
                    Self::rescored(new_score, now),
                ),
            ),
    {
        let keep = |s: &StudentScore| -> (b: bool)
            ensures
                b == Self::of_student_in(assessment_id@, student_id@)(*s),
            {
                s.assessment_id.is(Table::Assessments, &assessment_id) && s.student_id.is(
                    Table::Students,
                    &student_id,
                )
            };
        let change = |s: &StudentScore| -> (n: StudentScore)
            ensures
                n == Self::rescored(new_score, now)(*s),
            {
                let mut n = s.clone();
                n.score_obtained = Some(new_score);
                n.updated_at = now;
                n
            };
        let mut changed = rewrite_all(
            scores,
            keep,
            change,
            Ghost(Self::of_student_in(assessment_id@, student_id@)),
            Ghost(Self::rescored(new_score, now)),
        );
        if changed.len() > 0 {
            Some(changed.remove(0))
        } else {
            None
        }
    }

    /// Marks every score of an assessment as verified by `admin_id`, and
    /// hands them back.
    pub fn verify_assessment_scores(
        &self,
        scores: &mut Vec<StudentScore>,
        assessment_id: String,
        admin_id: String,
        now: Datetime,
    ) -> (r: Vec<StudentScore>)
        ensures
            final(scores)@ == revise_all(
                old(scores)@,
                Self::in_assessment(assessment_id@),
                Self::verified_by(admin_id, now),
            ),
            r@ == old(scores)@.filter(Self::in_assessment(assessment_id@)).map_values(
                Self::verified_by(admin_id, now),
            ),
    {
        let ghost apply = Self::verified_by(admin_id, now);
        let keep = |s: &StudentScore| -> (b: bool)
            ensures
                b == Self::in_assessment(assessment_id@)(*s),
            { s.assessment_id.is(Table::Assessments, &assessment_id) };
        let change = |s: &StudentScore| -> (n: StudentScore)
            ensures
                n == apply(*s),
            {
                let mut n = s.clone();
                n.verified = true;
                n.verified_by = Some(RecordId::new(Table::Users, admin_id.clone()));
                n.verified_at = Some(now);
                n.updated_at = now;
                n
            };
        rewrite_all(scores, keep, change, Ghost(Self::in_assessment(assessment_id@)), Ghost(apply))
    }

    /// The scores of a student in a subject, each with its assessment, the
    /// one whose assessment was held earliest first.
    pub fn get_by_student_subject(
        &self,
        scores: &Vec<StudentScore>,
        assessments: &Vec<Assessment>,
        student_id: String,
        subject_id: String,
    ) -> (r: Vec<(StudentScore, Option<Assessment>)>)
        ensures
            r@ == ordered(
                scores@.filter(Self::in_subject(assessments@, student_id@, subject_id@)),
                Self::by_date(assessments@),
            ).map_values(Self::with_assessment(assessments@)),
    {
        let keep = |s: &StudentScore| -> (b: bool)
            ensures
                b == Self::in_subject(assessments@, student_id@, subject_id@)(*s),
            {
                s.student_id.is(Table::Students, &student_id) && match follow(
                    assessments,
                    &s.assessment_id,
                ) {
                    Some(a) => a.subject_id.is(Table::Subjects, &subject_id),
                    None => false,
                }
            };
        let held = |s: &StudentScore| -> (d: Option<Datetime>)
            ensures
                d == Self::held_on(assessments@, *s),
            {
                match follow(assessments, &s.assessment_id) {
                    Some(a) => a.assessment_date,
                    None => None,
                }
            };
        let precedes = |a: &StudentScore, b: &StudentScore| -> (r: bool)
            ensures
                r == Self::by_date(assessments@)(*a, *b),
            { is_earlier(held(a), held(b)) };
        let found = select_ordered(
            scores,
            keep,
            precedes,
            Ghost(Self::in_subject(assessments@, student_id@, subject_id@)),
            Ghost(Self::by_date(assessments@)),
        );
        let turn = |s: &StudentScore| -> (u: (StudentScore, Option<Assessment>))
            ensures
                u == Self::with_assessment(assessments@)(*s),
            { (s.clone(), follow(assessments, &s.assessment_id)) };
        convert(&found, turn, Ghost(Self::with_assessment(assessments@)))
    }

    /// The mean of the numbers scored in an assessment, rounded towards
    /// zero; none where no score of it holds a number.
    pub fn get_class_average(&self, scores: &Vec<StudentScore>, assessment_id: String) -> (r:
        Option<Decimal>)
        ensures
            r == (if scores@.filter(Self::marked_in(assessment_id@)).len() == 0 {
                None
            } else {
                Some(
                    quotient(
                        total(scores@.filter(Self::marked_in(assessment_id@)), Self::marks()),
                        scores@.filter(Self::marked_in(assessment_id@)).len() as int,
                    ) as i64,
                )
            }),
    {
        let keep = |s: &StudentScore| -> (b: bool)
            ensures
                b == Self::marked_in(assessment_id@)(*s),
            { s.assessment_id.is(Table::Assessments, &assessment_id) && s.score_obtained.is_some()
            };
        let value = |s: &StudentScore| -> (v: i64)
            ensures
                v == Self::marks()(*s),
            {
                match s.score_obtained {
                    Some(v) => v,
                    None => 0,
                }
            };
        let (n, sum) = tally(
            scores,
            keep,
            value,
            Ghost(Self::marked_in(assessment_id@)),
            Ghost(Self::marks()),
        );
        if n == 0 {
            None
        } else {
            Some(mean(sum, n))
        }
    }

    /// What a student scored in a term, subject by subject: a row for each
    /// subject of the table of subjects in which the student has a score in
    /// the term, in the order of that table, with the sum of the scores.
    pub fn get_total_by_subject(
        &self,
        scores: &Vec<StudentScore>,
        assessments: &Vec<Assessment>,
        subjects: &Vec<Subject>,
        student_id: String,
        term_id: String,
    ) -> (r: Vec<(RecordId, Total)>)
        ensures
            r@ == subjects@.filter_map(
                Self::subject_row(scores@, assessments@, student_id@, term_id@),
            ),
    {
        let value = |s: &StudentScore| -> (v: i64)
            ensures
                v == Self::marks()(*s),
            {
                match s.score_obtained {
                    Some(v) => v,
                    None => 0,
                }
            };
        let row = |j: &Subject| -> (u: Option<(RecordId, Total)>)
            ensures
                u == Self::subject_row(scores@, assessments@, student_id@, term_id@)(*j),
            {
                let keep = |s: &StudentScore| -> (b: bool)
                    ensures
                        b == Self::in_subject_term(assessments@, j.id, student_id@, term_id@)(*s),
                    {
                        s.student_id.is(Table::Students, &student_id) && match follow(
                            assessments,
                            &s.assessment_id,
                        ) {
                            Some(a) => a.term_id.is(Table::Terms, &term_id) && id_is(
                                &j.id,
                                a.subject_id.table,
                                &a.subject_id.key,
                            ),
                            None => false,
                        }
                    };
                let (n, sum) = tally(
                    scores,
                    keep,
                    &value,
                    Ghost(Self::in_subject_term(assessments@, j.id, student_id@, term_id@)),
                    Ghost(Self::marks()),
                );
                match &j.id {
                    Some(id) => if n > 0 {
                        Some((id.clone(), sum))
                    } else {
                        None
                    },
                    None => None,
                }
            };
        collect(
            subjects,
            row,
            Ghost(Self::subject_row(scores@, assessments@, student_id@, term_id@)),
        )
    }
}

/// The repository of grading tables.
pub struct GradingSchemeQ;

impl GradingSchemeQ {
    /// The ranges of one school.
    pub open spec fn of_school(school_id: Seq<char>) -> spec_fn(GradingScheme) -> bool {
        |g: GradingScheme| g.school_id.names(Table::Schools, school_id)
    }

    /// The ranges of one school that hold `score`: those from whose lowest
    /// to whose highest score, both included, it lies.
    pub open spec fn grading(school_id: Seq<char>, score: Decimal) -> spec_fn(GradingScheme)
        -> bool {
        |g: GradingScheme|
            g.school_id.names(Table::Schools, school_id) && g.min_score <= score <= g.max_score
    }

    /// The range with the higher lowest score comes first.
    pub open spec fn highest_first() -> spec_fn(GradingScheme, GradingScheme) -> bool {
        |a: GradingScheme, b: GradingScheme| a.min_score > b.min_score
    }

    /// No score lies in two ranges of the school.
    pub open spec fn ranges_apart(schemes: Seq<GradingScheme>, school_id: Seq<char>) -> bool {
        forall|i: int, j: int|
            0 <= i < j < schemes.len() && (#[trigger] schemes[i]).school_id.names(
                Table::Schools,
                school_id,
            ) && (#[trigger] schemes[j]).school_id.names(Table::Schools, school_id) ==> schemes[i].max_score
                < schemes[j].min_score || schemes[j].max_score < schemes[i].min_score
    }

    /// Files a range of a grading table under `key`.
    pub fn create(&self, schemes: &mut Vec<GradingScheme>, data: GradingScheme, key: String) -> (r:
        DbResult<Option<GradingScheme>>)
        ensures
            files(
                old(schemes)@,
                final(schemes)@,
                data.filed(RecordId { table: Table::GradingSchemes, key }),
                r,
            ),
    {
        create(schemes, data, Table::GradingSchemes, key)
    }

    /// The grade that a school gives for a score: the range of the school
    /// from whose lowest to whose highest score, both included, the score
    /// lies. Where it lies in several, the first of them in the table is
    /// given.
    pub fn get_grade_for_score(&self, schemes: &Vec<GradingScheme>, school_id: String, score: Decimal)
        -> (r: Option<GradingScheme>)
        ensures
            r == first_match(schemes@, Self::grading(school_id@, score)),
            r is Some ==> r.unwrap().min_score <= score <= r.unwrap().max_score
                && r.unwrap().school_id.names(Table::Schools, school_id@),
            r is None ==> forall|i: int|
                0 <= i < schemes.len() ==> !Self::grading(school_id@, score)(#[trigger] schemes@[i]),
    {
        let keep = |g: &GradingScheme| -> (b: bool)
            ensures
                b == Self::grading(school_id@, score)(*g),
            {
                g.school_id.is(Table::Schools, &school_id) && g.min_score <= score && score
                    <= g.max_score
            };
        find(schemes, keep, Ghost(Self::grading(school_id@, score)))
    }

    /// A score at either end of a range is graded by that range: the ends
    /// belong to it. This holds of every range of the school that has a
    /// score in it, in a table in which the ranges of the school lie apart.
    pub proof fn law_bounds_included(schemes: Seq<GradingScheme>, school_id: Seq<char>, i: int)
        requires
            0 <= i < schemes.len(),
            schemes[i].school_id.names(Table::Schools, school_id),
            schemes[i].min_score <= schemes[i].max_score,
            Self::ranges_apart(schemes, school_id),
        ensures
            first_match(schemes, Self::grading(school_id, schemes[i].min_score)) == Some(
                schemes[i],
            ),
            first_match(schemes, Self::grading(school_id, schemes[i].max_score)) == Some(
                schemes[i],
            ),
    {
        let low = Self::grading(school_id, schemes[i].min_score);
        let high = Self::grading(school_id, schemes[i].max_score);
        assert(low(schemes[i]));
        assert(high(schemes[i]));
        assert forall|j: int| 0 <= j < i implies !low(#[trigger] schemes[j]) && !high(
            schemes[j],
        ) by {
            if schemes[j].school_id.names(Table::Schools, school_id) {
                assert(schemes[j].max_score < schemes[i].min_score || schemes[i].max_score
                    < schemes[j].min_score);
            }
        }
        lemma_first_index(schemes, low, i);
        lemma_first_index(schemes, high, i);
    }

    /// The grading table of a school, the range with the highest scores first.
    pub fn get_by_school(&self, schemes: &Vec<GradingScheme>, school_id: String) -> (r: Vec<
        GradingScheme,
    >)
        ensures
            r@ == ordered(schemes@.filter(Self::of_school(school_id@)), Self::highest_first()),
            in_order(r@, Self::highest_first()),
            forall|i: int|
                0 <= i < r.len() ==> (#[trigger] r@[i]).school_id.names(Table::Schools, school_id@),
    {
        let keep = |g: &GradingScheme| -> (b: bool)
            ensures
                b == Self::of_school(school_id@)(*g),
            { g.school_id.is(Table::Schools, &school_id) };
        let precedes = |a: &GradingScheme, b: &GradingScheme| -> (r: bool)
            ensures
                r == Self::highest_first()(*a, *b),
            { a.min_score > b.min_score };
        proof {
            law_numbers_rank(Self::highest_first(), |a: GradingScheme| -(a.min_score as int));
        }
        select_ordered(
            schemes,
            keep,
            precedes,
            Ghost(Self::of_school(school_id@)),
            Ghost(Self::highest_first()),
        )
    }
}

/// The repository of report cards.
pub struct ReportCardQ;

impl ReportCardQ {
    /// The report cards of one student for one term.
    pub open spec fn of_student_term(student_id: Seq<char>, term_id: Seq<char>) -> spec_fn(
        ReportCard,
    ) -> bool {
        |c: ReportCard|
            c.student_id.names(Table::Students, student_id) && c.term_id.names(
                Table::Terms,
                term_id,
            )
    }

    /// The published report cards of one term.
    pub open spec fn published_in(term_id: Seq<char>) -> spec_fn(ReportCard) -> bool {
        |c: ReportCard| c.term_id.names(Table::Terms, term_id) && c.published
    }

    /// The subject lines of one report card.
    pub open spec fn lines_of(report_card_id: Seq<char>) -> spec_fn(ReportCardScore) -> bool {
        |l: ReportCardScore| l.report_card_id.names(Table::ReportCards, report_card_id)
    }

    /// The report card with the higher average comes first; one without an
    /// average comes behind all that have one.
    pub open spec fn best_first() -> spec_fn(ReportCard, ReportCard) -> bool {
        |a: ReportCard, b: ReportCard| higher(a.average_percentage, b.average_percentage)
    }

    /// A report card published at `now`.
    pub open spec fn released(now: Datetime) -> spec_fn(ReportCard) -> ReportCard {
        |c: ReportCard| ReportCard { published: true, published_at: Some(now), ..c }
    }

    /// A report card whose document is kept at `pdf_url`.
    pub open spec fn printed(pdf_url: String) -> spec_fn(ReportCard) -> ReportCard {
        |c: ReportCard| ReportCard { pdf_url: Some(pdf_url), ..c }
    }

    /// The student of a report card, and the average on it.
    pub open spec fn standing(students: Seq<Student>) -> spec_fn(ReportCard) -> (
        Option<Student>,
        Option<Decimal>,
    ) {
        |c: ReportCard| (referred(students, c.student_id), c.average_percentage)
    }

    /// Files a report card under `key`.
    pub fn create(&self, cards: &mut Vec<ReportCard>, data: ReportCard, key: String) -> (r:
        DbResult<Option<ReportCard>>)
        ensures
            files(
                old(cards)@,
                final(cards)@,
                data.filed(RecordId { table: Table::ReportCards, key }),
                r,
            ),
    {
        create(cards, data, Table::ReportCards, key)
    }

    /// Files a subject line of a report card under `key`.
    pub fn add_score(&self, lines: &mut Vec<ReportCardScore>, data: ReportCardScore, key: String)
        -> (r: DbResult<Option<ReportCardScore>>)
        ensures
            files(
                old(lines)@,
                final(lines)@,
                data.filed(RecordId { table: Table::ReportCardScores, key }),
                r,
            ),
    {
        create(lines, data, Table::ReportCardScores, key)
    }

    /// Publishes a report card.
    pub fn publish(&self, cards: &mut Vec<ReportCard>, report_card_id: String, now: Datetime) -> (r:
        Option<ReportCard>)
        ensures
            final(cards)@ == revise_first(
                old(cards)@,
                keyed(Table::ReportCards, report_card_id@),
                Self::released(now),
            ),
            r == revised_first(
                old(cards)@,
                keyed(Table::ReportCards, report_card_id@),
                Self::released(now),
            ),
            r is Some <==> holds(old(cards)@, Table::ReportCards, report_card_id@),
    {
        let change = |c: &ReportCard| -> (n: ReportCard)
            ensures
                n == Self::released(now)(*c),
            {
                let mut n = c.clone();
                n.published = true;
                n.published_at = Some(now);
                n
            };
        rewrite_by_id(cards, Table::ReportCards, &report_card_id, change, Ghost(Self::released(now)))
    }

    /// The report card of a student for a term, the first that the table
    /// holds, with the student, the class and the term that it refers to.
    pub fn get_by_student_term(
        &self,
        cards: &Vec<ReportCard>,
        students: &Vec<Student>,
        classes: &Vec<Class>,
        terms: &Vec<Term>,
        student_id: String,
        term_id: String,
    ) -> (r: Option<(ReportCard, Option<Student>, Option<Class>, Option<Term>)>)
        ensures
            r == match first_match(cards@, Self::of_student_term(student_id@, term_id@)) {
                Some(c) => Some(
                    (
                        c,
                        referred(students@, c.student_id),
                        referred(classes@, c.class_id),
                        referred(terms@, c.term_id),
                    ),
                ),
                None => None,
            },
    {
        let keep = |c: &ReportCard| -> (b: bool)
            ensures
                b == Self::of_student_term(student_id@, term_id@)(*c),
            { c.student_id.is(Table::Students, &student_id) && c.term_id.is(Table::Terms, &term_id)
            };
        match find(cards, keep, Ghost(Self::of_student_term(student_id@, term_id@))) {
            Some(c) => {
                let student = follow(students, &c.student_id);
                let class = follow(classes, &c.class_id);
                let term = follow(terms, &c.term_id);
                Some((c, student, class, term))
            },
            None => None,
        }
    }

    /// A report card with its subject lines.
    pub fn get_with_scores(
        &self,
        cards: &Vec<ReportCard>,
        lines: &Vec<ReportCardScore>,
        report_card_id: String,
    ) -> (r: Option<(ReportCard, Vec<ReportCardScore>)>)
        ensures
            match first_match(cards@, keyed(Table::ReportCards, report_card_id@)) {
                Some(c) => r matches Some(found) && found.0 == c && found.1@ == lines@.filter(
                    Self::lines_of(report_card_id@),
                ),
                None => r is None,
            },
    {
        match find_by_id(cards, Table::ReportCards, &report_card_id) {
            Some(c) => {
                let keep = |l: &ReportCardScore| -> (b: bool)
                    ensures
                        b == Self::lines_of(report_card_id@)(*l),
                    { l.report_card_id.is(Table::ReportCards, &report_card_id) };
                let found = select(lines, keep, Ghost(Self::lines_of(report_card_id@)));
                Some((c, found))
            },
            None => None,
        }
    }

    /// The published report cards of a term, in the order of the table.
    pub fn get_published_by_term(&self, cards: &Vec<ReportCard>, term_id: String) -> (r: Vec<
        ReportCard,
    >)
        ensures
            r@ == cards@.filter(Self::published_in(term_id@)),
    {
        let keep = |c: &ReportCard| -> (b: bool)
            ensures
                b == Self::published_in(term_id@)(*c),
            { c.term_id.is(Table::Terms, &term_id) && c.published };
        select(cards, keep, Ghost(Self::published_in(term_id@)))
    }

    /// The students who did best in a term, by their published report
    /// cards, the highest average first: as many as `limit` says, 10 where
    /// it says nothing.
    pub fn get_top_performers(
        &self,
        cards: &Vec<ReportCard>,
        students: &Vec<Student>,
        term_id: String,
        limit: Option<u32>,
    ) -> (r: Vec<(Option<Student>, Option<Decimal>)>)
        ensures
            r@ == limited(
                ordered(cards@.filter(Self::published_in(term_id@)), Self::best_first()),
                limit_or(limit, 10),
            ).map_values(Self::standing(students@)),
            r.len() <= limit_or(limit, 10),
    {
        let keep = |c: &ReportCard| -> (b: bool)
            ensures
                b == Self::published_in(term_id@)(*c),
            { c.term_id.is(Table::Terms, &term_id) && c.published };
        let precedes = |a: &ReportCard, b: &ReportCard| -> (r: bool)
            ensures
                r == Self::best_first()(*a, *b),
            { is_higher(a.average_percentage, b.average_percentage) };
        let found = select_ordered(
            cards,
            keep,
            precedes,
            Ghost(Self::published_in(term_id@)),
            Ghost(Self::best_first()),
        );
        let best = capped(found, limit, 10);
        let turn = |c: &ReportCard| -> (u: (Option<Student>, Option<Decimal>))
            ensures
                u == Self::standing(students@)(*c),
            { (follow(students, &c.student_id), c.average_percentage) };
        convert(&best, turn, Ghost(Self::standing(students@)))
    }

    /// Records where the document of a report card is kept.
    pub fn set_pdf_url(&self, cards: &mut Vec<ReportCard>, report_card_id: String, pdf_url: String)
        -> (r: Option<ReportCard>)
        ensures
            final(cards)@ == revise_first(
                old(cards)@,
                keyed(Table::ReportCards, report_card_id@),
                Self::printed(pdf_url),
            ),
            r == revised_first(
                old(cards)@,
                keyed(Table::ReportCards, report_card_id@),
                Self::printed(pdf_url),
            ),
            r is Some <==> holds(old(cards)@, Table::ReportCards, report_card_id@),
    {
        let ghost apply = Self::printed(pdf_url);
        let change = |c: &ReportCard| -> (n: ReportCard)
            ensures
                n == apply(*c),
            {
                let mut n = c.clone();
                n.pdf_url = Some(pdf_url.clone());
                n
            };
        rewrite_by_id(cards, Table::ReportCards, &report_card_id, change, Ghost(apply))
    }
}

} // verus!
