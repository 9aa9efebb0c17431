//! Operations on many records in one step: all of them, or none.

use vstd::prelude::*;
use vstd::string::StringExecFns;
use crate::error::DbResult;
use crate::error::Error;
use crate::error::out_of_range;
use crate::error::range_error;
use crate::helpers::create_update_dtos::EnterScoreDto;
use crate::helpers::create_update_dtos::MarkAttendanceDto;
use crate::helpers::generators::generate_invoice_number;
use crate::helpers::generators::handed_out;
use crate::helpers::generators::invoice_number;
use crate::helpers::generators::last_of;
use crate::helpers::generators::next_invoice_seq;
use crate::helpers::generators::Sequence;
use crate::models::assessments_nd_grading::StudentScore;
use crate::models::attendance::Attendance;
use crate::models::fee_management::FeeStructure;
use crate::models::fee_management::Invoice;
use crate::models::InvoiceStatus;
use crate::models::Student;
use crate::models::StudentStatus;
use crate::models::system_and_audit::Notification;
use crate::queries::assessment::StudentScoreQ;
use crate::queries::student::StudentQ;
use crate::table::any;
use crate::table::convert;
use crate::table::create_all;
use crate::table::file;
use crate::table::files_all;
use crate::table::first_match;
use crate::table::holds;
use crate::table::keyed_batch;
use crate::table::Record;
use crate::table::revise_all;
use crate::table::rewrite_all;
use crate::table::select;
use crate::table::tally;
use crate::table::total;
use crate::values::Datetime;
use crate::values::id_among;
use crate::values::id_is;
use crate::values::is_among;
use crate::values::is_named;
use crate::values::RecordId;
use crate::values::Table;

verus! {

/// The repository of operations in bulk.
pub struct BulkQ;

impl BulkQ {
    /// The attendance that is filed for what was marked at `now` for the
    /// class `class_id` on the day `date`.
    pub open spec fn marked(class_id: String, date: Datetime, now: Datetime) -> spec_fn(
        (String, MarkAttendanceDto),
    ) -> (String, Attendance) {
        |p: (String, MarkAttendanceDto)|
            (
                p.0,
                Attendance {
                    id: None,
                    student_id: p.1.student_id,
                    class_id: RecordId { table: Table::Classes, key: class_id },
                    date,
                    status: p.1.status,
                    arrival_time: p.1.arrival_time,
                    reason: p.1.reason,
                    marked_by: None,
                    marked_at: now,
                    updated_at: now,
                },
            )
    }

    /// The score that is filed for what was entered at `now`.
    pub open spec fn entered(now: Datetime) -> spec_fn((String, EnterScoreDto)) -> (
        String,
        StudentScore,
    ) {
        |p: (String, EnterScoreDto)| (p.0, StudentScoreQ::entered(p.1, now))
    }

    /// The student filed under `student_id`, where the student is in the class.
    pub open spec fn listed(class_id: Seq<char>, student_id: Seq<char>) -> spec_fn(Student)
        -> bool {
        |s: Student|
            is_named(s.current_class_id, Table::Classes, class_id) && is_named(
                s.id,
                Table::Students,
                student_id,
            )
    }

    /// Whether the student filed under `student_id` is in the class.
    pub open spec fn enrolled(students: Seq<Student>, class_id: Seq<char>, student_id: Seq<char>)
        -> bool {
        first_match(students, Self::listed(class_id, student_id)) is Some
    }

    /// The students of the class who are named in the list.
    pub open spec fn all_listed(class_id: Seq<char>, student_ids: Seq<String>) -> spec_fn(
        Student,
    ) -> bool {
        |s: Student|
            is_named(s.current_class_id, Table::Classes, class_id) && is_among(
                s.id,
                Table::Students,
                student_ids,
            )
    }

    /// Marks the attendance of a class on a day: files a record for each
    /// entry of the batch, under the key that comes with it. Where a key
    /// is taken, nothing is filed.
    pub fn mark_class_attendance(
        attendance: &mut Vec<Attendance>,
        class_id: String,
        date: Datetime,
        records: Vec<(String, MarkAttendanceDto)>,
        now: Datetime,
    ) -> (r: DbResult<Vec<Attendance>>)
        ensures
            files_all(
                old(attendance)@,
                final(attendance)@,
                keyed_batch(
                    records@.map_values(Self::marked(class_id, date, now)),
                    Table::Attendance,
                ),
                r,
            ),
    {
        let ghost apply = Self::marked(class_id, date, now);
        let turn = |p: &(String, MarkAttendanceDto)| -> (u: (String, Attendance))
            ensures
                u == apply(*p),
            {
                (
                    p.0.clone(),
                    Attendance {
                        id: None,
                        student_id: p.1.student_id.clone(),
                        class_id: RecordId::new(Table::Classes, class_id.clone()),
                        date,
                        status: p.1.status,
                        arrival_time: p.1.arrival_time.clone(),
                        reason: p.1.reason.clone(),
                        marked_by: None,
                        marked_at: now,
                        updated_at: now,
                    },
                )
            };
        let batch = convert(&records, turn, Ghost(apply));
        create_all(attendance, &batch, Table::Attendance)
    }

    /// Enters the scores of an assessment: files a score for each entry of
    /// the batch, under the key that comes with it. Where a key is taken,
    /// nothing is filed.
    pub fn enter_scores_batch(
        scores: &mut Vec<StudentScore>,
        batch: Vec<(String, EnterScoreDto)>,
        now: Datetime,
    ) -> (r: DbResult<Vec<StudentScore>>)
        ensures
            files_all(
                old(scores)@,
                final(scores)@,
                keyed_batch(batch@.map_values(Self::entered(now)), Table::StudentScores),
                r,
            ),
    {
        let turn = |p: &(String, EnterScoreDto)| -> (u: (String, StudentScore))
            ensures
                u == Self::entered(now)(*p),
            {
                (
                    p.0.clone(),
                    StudentScore {
                        id: None,
                        assessment_id: p.1.assessment_id.clone(),
                        student_id: p.1.student_id.clone(),
                        score_obtained: Some(p.1.score_obtained),
                        remarks: p.1.remarks.clone(),
                        entered_by: None,
                        entered_at: now,
                        updated_at: now,
                        verified: false,
                        verified_by: None,
                        verified_at: None,
                    },
                )
            };
        let records = convert(&batch, turn, Ghost(Self::entered(now)));
        create_all(scores, &records, Table::StudentScores)
    }

    /// Moves the listed students of a class to another class, in one step.
    /// Where a listed student is not in the class, nobody is moved.
    pub fn promote_class(
        students: &mut Vec<Student>,
        current_class_id: String,
        new_class_id: String,
        student_ids: Vec<String>,
        now: Datetime,
    ) -> (r: DbResult<()>)
        ensures
            match r {
                Ok(_) => {
                    &&& forall|k: int|
                        0 <= k < student_ids.len() ==> Self::enrolled(
                            old(students)@,
                            current_class_id@,
                            (#[trigger] student_ids@[k])@,
                        )
                    &&& final(students)@ == revise_all(
                        old(students)@,
                        Self::all_listed(current_class_id@, student_ids@),
                        StudentQ::promoted(new_class_id, now),
                    )
                },
                Err(e) => {
                    &&& final(students)@ == old(students)@
                    &&& exists|k: int|
                        {
                            &&& 0 <= k < student_ids.len()
                            &&& !Self::enrolled(
                                old(students)@,
                                current_class_id@,
                                (#[trigger] student_ids@[k])@,
                            )
                            &&& forall|j: int|
                                0 <= j < k ==> Self::enrolled(
                                    old(students)@,
                                    current_class_id@,
                                    (#[trigger] student_ids@[j])@,
                                )
                            &&& e == Error::NotFound(student_ids@[k])
                        }
                },
            },
    {
        let mut i: usize = 0;
        while i < student_ids.len()
            invariant
                i <= student_ids.len(),
                students@ == old(students)@,
                forall|k: int|
                    0 <= k < i ==> Self::enrolled(
                        students@,
                        current_class_id@,
                        (#[trigger] student_ids@[k])@,
                    ),
            decreases student_ids.len() - i,
        {
            let wanted = &student_ids[i];
            let here = |s: &Student| -> (b: bool)
                ensures
                    b == Self::listed(current_class_id@, wanted@)(*s),
                {
                    id_is(&s.current_class_id, Table::Classes, &current_class_id) && id_is(
                        &s.id,
                        Table::Students,
                        wanted,
                    )
                };
            if !any(students, here, Ghost(Self::listed(current_class_id@, wanted@))) {
                return Err(Error::NotFound(wanted.clone()));
            }
            i += 1;
        }
        let ghost apply = StudentQ::promoted(new_class_id, now);
        let keep = |s: &Student| -> (b: bool)
            ensures
                b == Self::all_listed(current_class_id@, student_ids@)(*s),
            {
                id_is(&s.current_class_id, Table::Classes, &current_class_id) && id_among(
                    &s.id,
                    Table::Students,
                    &student_ids,
                )
            };
        let change = |s: &Student| -> (n: Student)
            ensures
                n == apply(*s),
            {
                let mut n = s.clone();
                n.current_class_id = Some(RecordId::new(Table::Classes, new_class_id.clone()));
                n.updated_at = now;
                n
            };
        rewrite_all(
            students,
            keep,
            change,
            Ghost(Self::all_listed(current_class_id@, student_ids@)),
            Ghost(apply),
        );
        Ok(())
    }

    /// Files a batch of notifications, each under the key that comes with
    /// it. Where a key is taken, nothing is filed.
    pub fn create_notifications_batch(
        notifications: &mut Vec<Notification>,
        batch: Vec<(String, Notification)>,
    ) -> (r: DbResult<Vec<Notification>>)
        ensures
            files_all(
                old(notifications)@,
                final(notifications)@,
                keyed_batch(batch@, Table::Notifications),
                r,
            ),
    {
        create_all(notifications, &batch, Table::Notifications)
    }

    /// The students of a class who are billed: those who attend, and whom
    /// the store has filed.
    pub open spec fn billable(class_id: Seq<char>) -> spec_fn(Student) -> bool {
        |s: Student| StudentQ::in_class(class_id)(s) && s.id is Some
    }

    /// The key of the invoice of a student for a term: the key of the
    /// student, an underscore, and the key of the term.
    pub open spec fn bill_key(s: Student, term_id: Seq<char>) -> Seq<char> {
        s.id.unwrap().key@ + seq!['_'] + term_id
    }

    /// The listed charges of one school.
    pub open spec fn charged(ids: Seq<String>, school: RecordId) -> spec_fn(FeeStructure) -> bool {
        |f: FeeStructure|
            f.school_id.names(school.table, school.key@) && is_among(
                f.id,
                Table::FeeStructures,
                ids,
            )
    }

    /// What a charge asks for.
    pub open spec fn price() -> spec_fn(FeeStructure) -> int {
        |f: FeeStructure| f.amount as int
    }

    /// What the listed charges of the school of a student come to.
    pub open spec fn due_from(fees: Seq<FeeStructure>, ids: Seq<String>, s: Student) -> int {
        total(fees.filter(Self::charged(ids, s.school_id)), Self::price())
    }

    /// Whether `v` is the invoice that is raised on the student `s` for a
    /// term: over `amount`, all of it still to pay, numbered as the
    /// `seq`-th invoice of the school in the year, and filed under the key
    /// of the student and the term.
    pub open spec fn is_bill(
        v: Invoice,
        s: Student,
        term_id: Seq<char>,
        amount: int,
        seq: nat,
        year: int,
        due_date: Datetime,
        now: Datetime,
    ) -> bool {
        &&& v.id matches Some(id) && id.table == Table::Invoices && id.key@ == Self::bill_key(
            s,
            term_id,
        )
        &&& v.student_id == s.id.unwrap()
        &&& v.school_id == s.school_id
        &&& v.term_id.names(Table::Terms, term_id)
        &&& v.invoice_number@ == invoice_number(year, seq)
        &&& v.total_amount == amount
        &&& v.amount_paid == 0
        &&& v.balance == amount
        &&& v.discount_amount == 0
        &&& v.discount_reason is None
        &&& v.due_date == due_date
        &&& v.status == InvoiceStatus::Unpaid
        &&& v.generated_by is None
        &&& v.generated_at == now
        &&& v.created_at == now
        &&& v.updated_at == now
    }

    /// The counters of invoices once each of the students has been handed
    /// the next number of the student's school, in their order.
    pub open spec fn handed_out_to(counters: Seq<Sequence>, who: Seq<Student>) -> Seq<Sequence>
        decreases who.len(),
    {
        if who.len() == 0 {
            counters
        } else {
            handed_out(Self::handed_out_to(counters, who.drop_last()), who.last().school_id.key)
        }
    }

    /// The number of the invoice of the `k`-th student: the next of the
    /// student's school, once the students further up have had theirs.
    pub open spec fn seq_of(counters: Seq<Sequence>, who: Seq<Student>, k: int) -> nat {
        last_of(Self::handed_out_to(counters, who.take(k)), who[k].school_id.key@) + 1
    }

    /// Whether an invoice can hold what the `k`-th student is charged.
    pub open spec fn affordable(
        fees: Seq<FeeStructure>,
        ids: Seq<String>,
        who: Seq<Student>,
        k: int,
    ) -> bool {
        i64::MIN <= Self::due_from(fees, ids, who[k]) <= i64::MAX
    }

    /// Whether the counter of the school of the `k`-th student can go higher.
    pub open spec fn countable(counters: Seq<Sequence>, who: Seq<Student>, k: int) -> bool {
        Self::seq_of(counters, who, k) <= u64::MAX
    }

    /// Whether the invoice of the `k`-th student can be raised: an invoice
    /// can hold what the student is charged, the counter of the school can
    /// go higher, and the key of the invoice is taken neither by an invoice
    /// of the table nor by the invoice of a student further up.
    pub open spec fn ready_at(
        before: Seq<Invoice>,
        counters: Seq<Sequence>,
        who: Seq<Student>,
        fees: Seq<FeeStructure>,
        ids: Seq<String>,
        term_id: Seq<char>,
        k: int,
    ) -> bool {
        &&& Self::affordable(fees, ids, who, k)
        &&& Self::countable(counters, who, k)
        &&& !holds(before, Table::Invoices, Self::bill_key(who[k], term_id))
        &&& forall|j: int|
            0 <= j < k ==> (#[trigger] who[j]).id.unwrap().key@ != who[k].id.unwrap().key@
    }

    fn copy_of(counters: &Vec<Sequence>) -> (r: Vec<Sequence>)
        ensures
            r@ == counters@,
    {
        let mut out: Vec<Sequence> = Vec::new();
        let mut i: usize = 0;
        while i < counters.len()
            invariant
                i <= counters.len(),
                out@ == counters@.take(i as int),
            decreases counters.len() - i,
        {
            out.push(counters[i].clone());
            assert(out@ =~= counters@.take(i + 1));
            i += 1;
        }
        assert(counters@.take(counters.len() as int) == counters@);
        out
    }

    /// Raises the invoices of a class for a term, in one step: one on each
    /// student of the class who attends, in the order of the table, over
    /// what the listed charges of the student's school come to, numbered
    /// with the next invoice number that the counters hand out to the
    /// school, and filed under the key of the student and the term. Where
    /// an invoice cannot hold what a student is charged, or the counter of
    /// a school cannot go higher, the store's range error is returned;
    /// where the key of an invoice is taken, the key is returned as a
    /// duplicate; either way, no invoice is raised and no counter moves.
    pub fn generate_class_invoices(
        invoices: &mut Vec<Invoice>,
        invoice_counters: &mut Vec<Sequence>,
        students: &Vec<Student>,
        fees: &Vec<FeeStructure>,
        class_id: String,
        term_id: String,
        fee_structure_ids: Vec<String>,
        year: i32,
        due_date: Datetime,
        now: Datetime,
    ) -> (r: DbResult<Vec<Invoice>>)
        ensures
            match r {
                Ok(v) => {
                    &&& forall|k: int|
                        0 <= k < students@.filter(Self::billable(class_id@)).len()
                            ==> #[trigger] Self::ready_at(
                            old(invoices)@,
                            old(invoice_counters)@,
                            students@.filter(Self::billable(class_id@)),
                            fees@,
                            fee_structure_ids@,
                            term_id@,
                            k,
                        )
                    &&& final(invoices)@ == old(invoices)@ + v@
                    &&& final(invoice_counters)@ == Self::handed_out_to(
                        old(invoice_counters)@,
                        students@.filter(Self::billable(class_id@)),
                    )
                    &&& v.len() == students@.filter(Self::billable(class_id@)).len()
                    &&& forall|k: int|
                        0 <= k < v.len() ==> Self::is_bill(
                            #[trigger] v@[k],
                            students@.filter(Self::billable(class_id@))[k],
                            term_id@,
                            Self::due_from(
                                fees@,
                                fee_structure_ids@,
                                students@.filter(Self::billable(class_id@))[k],
                            ),
                            Self::seq_of(
                                old(invoice_counters)@,
                                students@.filter(Self::billable(class_id@)),
                                k,
                            ),
                            year as int,
                            due_date,
                            now,
                        )
                },
                Err(e) => {
                    &&& final(invoices)@ == old(invoices)@
                    &&& final(invoice_counters)@ == old(invoice_counters)@
                    &&& exists|k: int|
                        {
                            &&& 0 <= k < students@.filter(Self::billable(class_id@)).len()
                            &&& !(#[trigger] Self::ready_at(
                                old(invoices)@,
                                old(invoice_counters)@,
                                students@.filter(Self::billable(class_id@)),
                                fees@,
                                fee_structure_ids@,
                                term_id@,
                                k,
                            ))
                            &&& forall|j: int|
                                0 <= j < k ==> #[trigger] Self::ready_at(
                                    old(invoices)@,
                                    old(invoice_counters)@,
                                    students@.filter(Self::billable(class_id@)),
                                    fees@,
                                    fee_structure_ids@,
                                    term_id@,
                                    j,
                                )
                            &&& if !Self::affordable(
                                fees@,
                                fee_structure_ids@,
                                students@.filter(Self::billable(class_id@)),
                                k,
                            ) || !Self::countable(
                                old(invoice_counters)@,
                                students@.filter(Self::billable(class_id@)),
                                k,
                            ) {
                                out_of_range(e)
                            } else {
                                e matches Error::Duplicate(key) && key@ == Self::bill_key(
                                    students@.filter(Self::billable(class_id@))[k],
                                    term_id@,
                                )
                            }
                        }
                },
            },
    {
        let keep = |s: &Student| -> (b: bool)
            ensures
                b == Self::billable(class_id@)(*s),
            {
                id_is(&s.current_class_id, Table::Classes, &class_id) && s.status
                    == StudentStatus::Active && s.id.is_some()
            };
        let who = select(students, keep, Ghost(Self::billable(class_id@)));
        let start = invoices.len();
        let saved = Self::copy_of(invoice_counters);
        proof {
            reveal_strlit("_");
            assert("_"@ =~= seq!['_']);
        }
        let mut out: Vec<Invoice> = Vec::new();
        let mut i: usize = 0;
        while i < who.len()
            invariant
                i <= who.len(),
                start == old(invoices).len(),
                saved@ == old(invoice_counters)@,
                "_"@ == seq!['_'],
                who@ == students@.filter(Self::billable(class_id@)),
                forall|k: int| 0 <= k < who.len() ==> (#[trigger] who@[k]).id is Some,
                invoices@ == old(invoices)@ + out@,
                invoice_counters@ == Self::handed_out_to(
                    old(invoice_counters)@,
                    who@.take(i as int),
                ),
                out.len() == i,
                forall|k: int|
                    0 <= k < i ==> #[trigger] Self::ready_at(
                        old(invoices)@,
                        old(invoice_counters)@,
                        who@,
                        fees@,
                        fee_structure_ids@,
                        term_id@,
                        k,
                    ),
                forall|k: int|
                    0 <= k < i ==> Self::is_bill(
                        #[trigger] out@[k],
                        who@[k],
                        term_id@,
                        Self::due_from(fees@, fee_structure_ids@, who@[k]),
                        Self::seq_of(old(invoice_counters)@, who@, k),
                        year as int,
                        due_date,
                        now,
                    ),
            decreases who.len() - i,
        {
            let s = &who[i];
            let listed = |f: &FeeStructure| -> (b: bool)
                ensures
                    b == Self::charged(fee_structure_ids@, s.school_id)(*f),
                {
                    f.school_id.same(&s.school_id) && id_among(
                        &f.id,
                        Table::FeeStructures,
                        &fee_structure_ids,
                    )
                };
            let asked = |f: &FeeStructure| -> (a: i64)
                ensures
                    a == Self::price()(*f),
                { f.amount };
            let (_, sum) = tally(
                fees,
                listed,
                asked,
                Ghost(Self::charged(fee_structure_ids@, s.school_id)),
                Ghost(Self::price()),
            );
            if sum < -0x8000_0000_0000_0000 || sum > 0x7fff_ffff_ffff_ffff {
                invoices.truncate(start);
                *invoice_counters = saved;
                assert(invoices@ =~= old(invoices)@);
                assert(!Self::ready_at(
                    old(invoices)@,
                    old(invoice_counters)@,
                    who@,
                    fees@,
                    fee_structure_ids@,
                    term_id@,
                    i as int,
                ));
                return Err(range_error());
            }
            let ghost counted = invoice_counters@;
            let seq = match next_invoice_seq(invoice_counters, s.school_id.key.clone()) {
                Ok(n) => n,
                Err(e) => {
                    invoices.truncate(start);
                    *invoice_counters = saved;
                    assert(invoices@ =~= old(invoices)@);
                    assert(!Self::ready_at(
                        old(invoices)@,
                        old(invoice_counters)@,
                        who@,
                        fees@,
                        fee_structure_ids@,
                        term_id@,
                        i as int,
                    ));
                    return Err(e);
                },
            };
            proof {
                assert(who@.take(i + 1).drop_last() == who@.take(i as int));
                assert(who@.take(i + 1).last() == who@[i as int]);
                assert(invoice_counters@ == Self::handed_out_to(
                    old(invoice_counters)@,
                    who@.take(i + 1),
                ));
            }
            let whose = match &s.id {
                Some(id) => id.clone(),
                None => RecordId::new(Table::Students, String::new()),
            };
            let key = whose.key.clone().concat("_").concat(term_id.as_str());
            assert(key@ == Self::bill_key(*s, term_id@));
            let record = Invoice {
                id: Some(RecordId::new(Table::Invoices, key)),
                student_id: whose,
                school_id: s.school_id.clone(),
                term_id: RecordId::new(Table::Terms, term_id.clone()),
                invoice_number: generate_invoice_number(year, seq),
                total_amount: sum as i64,
                amount_paid: 0,
                balance: sum as i64,
                discount_amount: 0,
                discount_reason: None,
                due_date,
                status: InvoiceStatus::Unpaid,
                generated_by: None,
                generated_at: now,
                created_at: now,
                updated_at: now,
            };
            let ghost mine = Self::bill_key(*s, term_id@);
            let ghost sofar = out@;
            match file(invoices, record) {
                Ok(filed) => {
                    match filed {
                        Some(back) => {
                            out.push(back);
                        },
                        None => {},
                    }
                    proof {
                        assert(invoices@ =~= old(invoices)@ + out@);
                        assert forall|j: int| 0 <= j < i implies who@[j].id.unwrap().key@
                            != who@[i as int].id.unwrap().key@ by {
                            if who@[j].id.unwrap().key@ == who@[i as int].id.unwrap().key@ {
                                assert(sofar[j].id.unwrap().key@ == mine);
                                assert((old(invoices)@ + sofar)[start + j] == sofar[j]);
                                assert(is_named(
                                    (old(invoices)@ + sofar)[start + j].record_id(),
                                    Table::Invoices,
                                    mine,
                                ));
                                assert(holds(old(invoices)@ + sofar, Table::Invoices, mine));
                            }
                        }
                        if holds(old(invoices)@, Table::Invoices, mine) {
                            let w = choose|w: int|
                                0 <= w < old(invoices)@.len() && is_named(
                                    #[trigger] old(invoices)@[w].record_id(),
                                    Table::Invoices,
                                    mine,
                                );
                            assert((old(invoices)@ + sofar)[w] == old(invoices)@[w]);
                            assert(is_named(
                                (old(invoices)@ + sofar)[w].record_id(),
                                Table::Invoices,
                                mine,
                            ));
                            assert(holds(old(invoices)@ + sofar, Table::Invoices, mine));
                        }
                        assert forall|k: int| 0 <= k < i + 1 implies Self::is_bill(
                            #[trigger] out@[k],
                            who@[k],
                            term_id@,
                            Self::due_from(fees@, fee_structure_ids@, who@[k]),
                            Self::seq_of(old(invoice_counters)@, who@, k),
                            year as int,
                            due_date,
                            now,
                        ) by {
                            if k < i {
                                assert(out@[k] == sofar[k]);
                            }
                        }
                    }
                },
                Err(e) => {
                    proof {
                        let w = choose|w: int|
                            0 <= w < (old(invoices)@ + sofar).len() && is_named(
                                #[trigger] (old(invoices)@ + sofar)[w].record_id(),
                                Table::Invoices,
                                mine,
                            );
                        if w < start {
                            assert((old(invoices)@ + sofar)[w] == old(invoices)@[w]);
                            assert(is_named(old(invoices)@[w].record_id(), Table::Invoices, mine));
                            assert(holds(old(invoices)@, Table::Invoices, mine));
                        } else {
                            let j = w - start;
                            assert((old(invoices)@ + sofar)[w] == sofar[j]);
                            let a = who@[j].id.unwrap().key@;
                            let b = who@[i as int].id.unwrap().key@;
                            assert(a + seq!['_'] + term_id@ == b + seq!['_'] + term_id@);
                            assert(a.len() == b.len());
                            assert(a =~= (a + seq!['_'] + term_id@).take(a.len() as int));
                            assert(b =~= (b + seq!['_'] + term_id@).take(b.len() as int));
                        }
                        assert(!Self::ready_at(
                            old(invoices)@,
                            old(invoice_counters)@,
                            who@,
                            fees@,
                            fee_structure_ids@,
                            term_id@,
                            i as int,
                        ));
                    }
                    invoices.truncate(start);
                    *invoice_counters = saved;
                    assert(invoices@ =~= old(invoices)@);
                    return Err(e);
                },
            }
            i += 1;
        }
        proof {
            assert(who@.take(who.len() as int) == who@);
        }
        Ok(out)
    }
}

} // verus!
