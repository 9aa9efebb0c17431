//! Charges, invoices, payments and reminders.

use vstd::prelude::*;
use vstd::pervasive::VecAdditionalExecFns;
use crate::error::DbResult;
use crate::error::out_of_range;
use crate::error::range_error;
use crate::helpers::api_responses::ClassCollection;
use crate::helpers::api_responses::CollectionSummary;
use crate::helpers::api_responses::PaymentStats;
use crate::models::academic::Class;
use crate::models::fee_management::FeeStructure;
use crate::models::fee_management::Invoice;
use crate::models::fee_management::InvoiceItem;
use crate::models::fee_management::Payment;
use crate::models::fee_management::PaymentReminder;
use crate::models::FeeType;
use crate::models::InvoiceStatus;
use crate::models::Student;
use crate::table::collect;
use crate::table::convert;
use crate::table::create;
use crate::table::files;
use crate::table::find;
use crate::table::find_by_id;
use crate::table::first_match;
use crate::table::follow;
use crate::table::holds;
use crate::table::in_order;
use crate::table::keyed;
use crate::table::law_numbers_rank;
use crate::table::locate_by_id;
use crate::table::ordered;
use crate::table::ranks;
use crate::table::Record;
use crate::table::referred;
use crate::table::revise_all;
use crate::table::revise_first;
use crate::table::revised_first;
use crate::table::rewrite_all;
use crate::table::rewrite_by_id;
use crate::table::select;
use crate::table::select_ordered;
use crate::table::tally;
use crate::table::total;
use crate::text::law_text_order;
use crate::text::str_before;
use crate::text::text_before;
use crate::values::Datetime;
use crate::values::Decimal;
use crate::values::id_is;
use crate::values::is_named;
use crate::values::RecordId;
use crate::values::SECONDS_PER_DAY;
use crate::values::Table;

verus! {

/// The repository of charges.
pub struct FeeStructureQ;

impl FeeStructureQ {
    /// The charges of one school.
    pub open spec fn of_school(school_id: Seq<char>) -> spec_fn(FeeStructure) -> bool {
        |f: FeeStructure| f.school_id.names(Table::Schools, school_id)
    }

    /// The charges that a school raises in one session for one class level,
    /// or for all levels.
    pub open spec fn due_from(school_id: Seq<char>, level: Seq<char>, session_id: Seq<char>)
        -> spec_fn(FeeStructure) -> bool {
        |f: FeeStructure|
            f.school_id.names(Table::Schools, school_id) && (f.class_level@ == level
                || f.class_level@ == "all"@) && is_named(
                f.session_id,
                Table::AcademicSessions,
                session_id,
            )
    }

    /// A charge of a type whose name sorts lower comes first; within a
    /// type, the charge whose class level sorts lower.
    pub open spec fn by_type_and_level() -> spec_fn(FeeStructure, FeeStructure) -> bool {
        |a: FeeStructure, b: FeeStructure|
            text_before(a.fee_type.name(), b.fee_type.name()) || (a.fee_type == b.fee_type
                && text_before(a.class_level@, b.class_level@))
    }

    /// Charges are listed by type and class level as a ranking lists them.
    pub proof fn law_by_type_and_level_ranks()
        ensures
            ranks(Self::by_type_and_level()),
    {
        let before = Self::by_type_and_level();
        assert forall|a: FeeStructure, b: FeeStructure| #[trigger] before(a, b) implies !before(b, a) by {
            law_text_order(a.fee_type.name(), b.fee_type.name(), a.fee_type.name());
            law_text_order(a.class_level@, b.class_level@, a.class_level@);
        }
        assert forall|a: FeeStructure, b: FeeStructure, c: FeeStructure|
            !(#[trigger] before(a, b)) && !(#[trigger] before(b, c)) implies !before(a, c) by {
            law_text_order(a.fee_type.name(), b.fee_type.name(), c.fee_type.name());
            law_text_order(a.class_level@, b.class_level@, c.class_level@);
            if a.fee_type.name() == b.fee_type.name() {
                FeeType::law_names_differ(a.fee_type, b.fee_type);
            }
            if b.fee_type.name() == c.fee_type.name() {
                FeeType::law_names_differ(b.fee_type, c.fee_type);
            }
        }
    }

    /// Files a charge under `key`.
    pub fn create(&self, fees: &mut Vec<FeeStructure>, data: FeeStructure, key: String) -> (r:
        DbResult<Option<FeeStructure>>)
        ensures
            files(
                old(fees)@,
                final(fees)@,
                data.filed(RecordId { table: Table::FeeStructures, key }),
                r,
            ),
    {
        create(fees, data, Table::FeeStructures, key)
    }

    /// The charges that a school raises in a session for a class level,
    /// those for all levels among them, in the order of the table.
    pub fn get_by_level_and_session(
        &self,
        fees: &Vec<FeeStructure>,
        school_id: String,
        level: String,
        session_id: String,
    ) -> (r: Vec<FeeStructure>)
        ensures
            r@ == fees@.filter(Self::due_from(school_id@, level@, session_id@)),
            forall|i: int|
                0 <= i < r.len() ==> (#[trigger] r@[i]).school_id.names(Table::Schools, school_id@),
    {
        let all = String::from_str("all");
        let keep = |f: &FeeStructure| -> (b: bool)
            ensures
                b == Self::due_from(school_id@, level@, session_id@)(*f),
            {
                f.school_id.is(Table::Schools, &school_id) && (f.class_level == level
                    || f.class_level == all) && id_is(
                    &f.session_id,
                    Table::AcademicSessions,
                    &session_id,
                )
            };
        select(fees, keep, Ghost(Self::due_from(school_id@, level@, session_id@)))
    }

    /// The charges of a school, by type and class level.
    pub fn get_by_school(&self, fees: &Vec<FeeStructure>, school_id: String) -> (r: Vec<
        FeeStructure,
    >)
        ensures
            r@ == ordered(fees@.filter(Self::of_school(school_id@)), Self::by_type_and_level()),
            in_order(r@, Self::by_type_and_level()),
            forall|i: int|
                0 <= i < r.len() ==> (#[trigger] r@[i]).school_id.names(Table::Schools, school_id@),
    {
        let keep = |f: &FeeStructure| -> (b: bool)
            ensures
                b == Self::of_school(school_id@)(*f),
            { f.school_id.is(Table::Schools, &school_id) };
        let precedes = |a: &FeeStructure, b: &FeeStructure| -> (r: bool)
            ensures
                r == Self::by_type_and_level()(*a, *b),
            {
                str_before(a.fee_type.as_str(), b.fee_type.as_str()) || (a.fee_type == b.fee_type
                    && str_before(a.class_level.as_str(), b.class_level.as_str()))
            };
        proof {
            Self::law_by_type_and_level_ranks();
        }
        select_ordered(
            fees,
            keep,
            precedes,
            Ghost(Self::of_school(school_id@)),
            Ghost(Self::by_type_and_level()),
        )
    }
}

/// The repository of invoices.
pub struct InvoiceQ;

impl InvoiceQ {
    /// The invoices of one student for one term.
    pub open spec fn of_student_term(student_id: Seq<char>, term_id: Seq<char>) -> spec_fn(
        Invoice,
    ) -> bool {
        |v: Invoice|
            v.student_id.names(Table::Students, student_id) && v.term_id.names(
                Table::Terms,
                term_id,
            )
    }

    /// The invoices of one student.
    pub open spec fn of_student(student_id: Seq<char>) -> spec_fn(Invoice) -> bool {
        |v: Invoice| v.student_id.names(Table::Students, student_id)
    }

    /// The invoices of one school that have one status.
    pub open spec fn with_status(school_id: Seq<char>, status: InvoiceStatus) -> spec_fn(
        Invoice,
    ) -> bool {
        |v: Invoice| v.school_id.names(Table::Schools, school_id) && v.status == status
    }

    /// The invoices that one school raised for one term.
    pub open spec fn billed(school_id: Seq<char>, term_id: Seq<char>) -> spec_fn(Invoice) -> bool {
        |v: Invoice|
            v.school_id.names(Table::Schools, school_id) && v.term_id.names(Table::Terms, term_id)
    }

    /// The lines of one invoice.
    pub open spec fn lines_of(invoice_id: Seq<char>) -> spec_fn(InvoiceItem) -> bool {
        |t: InvoiceItem| t.invoice_id.names(Table::Invoices, invoice_id)
    }

    /// The invoice that is due earlier comes first.
    pub open spec fn by_due_date() -> spec_fn(Invoice, Invoice) -> bool {
        |a: Invoice, b: Invoice| a.due_date < b.due_date
    }

    /// The invoice that was made later comes first.
    pub open spec fn latest_first() -> spec_fn(Invoice, Invoice) -> bool {
        |a: Invoice, b: Invoice| a.created_at > b.created_at
    }

    /// An invoice with the student it is for.
    pub open spec fn with_student(students: Seq<Student>) -> spec_fn(Invoice) -> (
        Invoice,
        Option<Student>,
    ) {
        |v: Invoice| (v, referred(students, v.student_id))
    }

    /// The status of an invoice once a payment has brought its balance to
    /// `balance` and what was paid on it to `paid`: paid where nothing is
    /// left to pay; else partial where anything was paid; else as it was.
    pub open spec fn status_after(status: InvoiceStatus, balance: int, paid: int)
        -> InvoiceStatus {
        if balance <= 0 {
            InvoiceStatus::Paid
        } else if paid > 0 {
            InvoiceStatus::Partial
        } else {
            status
        }
    }

    /// Whether the invoice can take a payment of `amount`: both what was
    /// paid and the balance stay numbers that an invoice can hold.
    pub open spec fn payable(v: Invoice, amount: Decimal) -> bool {
        &&& i64::MIN <= v.amount_paid + amount <= i64::MAX
        &&& i64::MIN <= v.balance - amount <= i64::MAX
    }

    /// An invoice after a payment of `amount` at `now`: the amount is added
    /// to what was paid and taken off the balance, and the status follows.
    pub open spec fn paid_with(amount: Decimal, now: Datetime) -> spec_fn(Invoice) -> Invoice {
        |v: Invoice|
            Invoice {
                amount_paid: (v.amount_paid + amount) as i64,
                balance: (v.balance - amount) as i64,
                status: Self::status_after(v.status, v.balance - amount, v.amount_paid + amount),
                updated_at: now,
                ..v
            }
    }

    /// An invoice cancelled at `now`.
    pub open spec fn cancelled(now: Datetime) -> spec_fn(Invoice) -> Invoice {
        |v: Invoice| Invoice { status: InvoiceStatus::Cancelled, updated_at: now, ..v }
    }

    /// What an invoice asks for in all.
    pub open spec fn expected() -> spec_fn(Invoice) -> int {
        |v: Invoice| v.total_amount as int
    }

    /// What was paid on an invoice.
    pub open spec fn collected() -> spec_fn(Invoice) -> int {
        |v: Invoice| v.amount_paid as int
    }

    /// What is still to pay on an invoice.
    pub open spec fn outstanding() -> spec_fn(Invoice) -> int {
        |v: Invoice| v.balance as int
    }

    /// What a selection of invoices comes to; nothing where it is empty.
    pub open spec fn summary(sel: Seq<Invoice>) -> Option<CollectionSummary> {
        if sel.len() == 0 {
            None
        } else {
            Some(
                CollectionSummary {
                    total_invoices: sel.len() as u64,
                    total_expected: total(sel, Self::expected()) as i128,
                    total_collected: total(sel, Self::collected()) as i128,
                    total_outstanding: total(sel, Self::outstanding()) as i128,
                },
            )
        }
    }

    /// Whether the student that the invoice is for is in the class `class`.
    pub open spec fn student_in(students: Seq<Student>, class: Option<RecordId>, v: Invoice)
        -> bool {
        match referred(students, v.student_id) {
            Some(s) => match s.current_class_id {
                Some(c) => is_named(class, c.table, c.key@),
                None => false,
            },
            None => false,
        }
    }

    /// The invoices that a school raised for a term on the students of one class.
    pub open spec fn billed_in_class(
        students: Seq<Student>,
        class: Option<RecordId>,
        school_id: Seq<char>,
        term_id: Seq<char>,
    ) -> spec_fn(Invoice) -> bool {
        |v: Invoice| Self::billed(school_id, term_id)(v) && Self::student_in(students, class, v)
    }

    /// The row of one class in the collection by class; nothing for a class
    /// of another school, or one on whose students no invoice was raised.
    pub open spec fn class_row(
        invoices: Seq<Invoice>,
        students: Seq<Student>,
        school_id: Seq<char>,
        term_id: Seq<char>,
    ) -> spec_fn(Class) -> Option<ClassCollection> {
        |c: Class|
            {
                let sel = invoices.filter(
                    Self::billed_in_class(students, c.id, school_id, term_id),
                );
                if c.school_id.names(Table::Schools, school_id) && sel.len() > 0 {
                    Some(
                        ClassCollection {
                            class_name: Some(c.class_name),
                            total_invoices: sel.len() as u64,
                            total_collected: total(sel, Self::collected()) as i128,
                            total_outstanding: total(sel, Self::outstanding()) as i128,
                        },
                    )
                } else {
                    None
                }
            }
    }

    /// Files an invoice under `key`.
    pub fn create(&self, invoices: &mut Vec<Invoice>, data: Invoice, key: String) -> (r: DbResult<
        Option<Invoice>,
    >)
        ensures
            files(
                old(invoices)@,
                final(invoices)@,
                data.filed(RecordId { table: Table::Invoices, key }),
                r,
            ),
    {
        create(invoices, data, Table::Invoices, key)
    }

    /// Files a line of an invoice under `key`.
    pub fn add_item(&self, items: &mut Vec<InvoiceItem>, data: InvoiceItem, key: String) -> (r:
        DbResult<Option<InvoiceItem>>)
        ensures
            files(
                old(items)@,
                final(items)@,
                data.filed(RecordId { table: Table::InvoiceItems, key }),
                r,
            ),
    {
        create(items, data, Table::InvoiceItems, key)
    }

    /// The invoice of a student for a term: the first that the table holds.
    pub fn get_by_student_term(&self, invoices: &Vec<Invoice>, student_id: String, term_id: String)
        -> (r: Option<Invoice>)
        ensures
            r == first_match(invoices@, Self::of_student_term(student_id@, term_id@)),
    {
        let keep = |v: &Invoice| -> (b: bool)
            ensures
                b == Self::of_student_term(student_id@, term_id@)(*v),
            { v.student_id.is(Table::Students, &student_id) && v.term_id.is(Table::Terms, &term_id)
            };
        find(invoices, keep, Ghost(Self::of_student_term(student_id@, term_id@)))
    }

    /// An invoice with the student it is for and its lines.
    pub fn get_with_items(
        &self,
        invoices: &Vec<Invoice>,
        items: &Vec<InvoiceItem>,
        students: &Vec<Student>,
        invoice_id: String,
    ) -> (r: Option<(Invoice, Option<Student>, Vec<InvoiceItem>)>)
        ensures
            match first_match(invoices@, keyed(Table::Invoices, invoice_id@)) {
                Some(v) => r matches Some(found) && found.0 == v && found.1 == referred(
                    students@,
                    v.student_id,
                ) && found.2@ == items@.filter(Self::lines_of(invoice_id@)),
                None => r is None,
            },
    {
        match find_by_id(invoices, Table::Invoices, &invoice_id) {
            Some(v) => {
                let student = follow(students, &v.student_id);
                let keep = |t: &InvoiceItem| -> (b: bool)
                    ensures
                        b == Self::lines_of(invoice_id@)(*t),
                    { t.invoice_id.is(Table::Invoices, &invoice_id) };
                let lines = select(items, keep, Ghost(Self::lines_of(invoice_id@)));
                Some((v, student, lines))
            },
            None => None,
        }
    }

    /// The invoices of a school that have one status, each with the student
    /// it is for, the one that is due earliest first.
    pub fn get_by_status(
        &self,
        invoices: &Vec<Invoice>,
        students: &Vec<Student>,
        school_id: String,
        status: InvoiceStatus,
    ) -> (r: Vec<(Invoice, Option<Student>)>)
        ensures
            r@ == ordered(
                invoices@.filter(Self::with_status(school_id@, status)),
                Self::by_due_date(),
            ).map_values(Self::with_student(students@)),
            forall|i: int|
                0 <= i < r.len() ==> (#[trigger] r@[i]).0.school_id.names(
                    Table::Schools,
                    school_id@,
                ),
    {
        let keep = |v: &Invoice| -> (b: bool)
            ensures
                b == Self::with_status(school_id@, status)(*v),
            { v.school_id.is(Table::Schools, &school_id) && v.status == status };
        let precedes = |a: &Invoice, b: &Invoice| -> (r: bool)
            ensures
                r == Self::by_due_date()(*a, *b),
            { a.due_date < b.due_date };
        let found = select_ordered(
            invoices,
            keep,
            precedes,
            Ghost(Self::with_status(school_id@, status)),
            Ghost(Self::by_due_date()),
        );
        let turn = |v: &Invoice| -> (u: (Invoice, Option<Student>))
            ensures
                u == Self::with_student(students@)(*v),
            { (v.clone(), follow(students, &v.student_id)) };
        convert(&found, turn, Ghost(Self::with_student(students@)))
    }

    /// The invoices of a student, the latest first.
    pub fn get_by_student(&self, invoices: &Vec<Invoice>, student_id: String) -> (r: Vec<Invoice>)
        ensures
            r@ == ordered(invoices@.filter(Self::of_student(student_id@)), Self::latest_first()),
            in_order(r@, Self::latest_first()),
    {
        let keep = |v: &Invoice| -> (b: bool)
            ensures
                b == Self::of_student(student_id@)(*v),
            { v.student_id.is(Table::Students, &student_id) };
        let precedes = |a: &Invoice, b: &Invoice| -> (r: bool)
            ensures
                r == Self::latest_first()(*a, *b),
            { a.created_at > b.created_at };
        proof {
            law_numbers_rank(Self::latest_first(), |a: Invoice| -(a.created_at as int));
        }
        select_ordered(
            invoices,
            keep,
            precedes,
            Ghost(Self::of_student(student_id@)),
            Ghost(Self::latest_first()),
        )
    }

    /// Applies a payment to an invoice: in one step the amount is added to
    /// what was paid and taken off the balance, and the status becomes paid
    /// where nothing is left to pay, partial where something was paid, and
    /// stays as it was otherwise. Where the invoice cannot hold the new
    /// numbers, nothing changes and the store's range error is returned.
    pub fn apply_payment(
        &self,
        invoices: &mut Vec<Invoice>,
        invoice_id: String,
        payment_amount: Decimal,
        now: Datetime,
    ) -> (r: DbResult<Option<Invoice>>)
        ensures
            match r {
                Ok(v) => {
                    &&& final(invoices)@ == revise_first(
                        old(invoices)@,
                        keyed(Table::Invoices, invoice_id@),
                        Self::paid_with(payment_amount, now),
                    )
                    &&& v == revised_first(
                        old(invoices)@,
                        keyed(Table::Invoices, invoice_id@),
                        Self::paid_with(payment_amount, now),
                    )
                    &&& v is Some <==> holds(old(invoices)@, Table::Invoices, invoice_id@)
                    &&& first_match(old(invoices)@, keyed(Table::Invoices, invoice_id@)) matches Some(
                        was,
                    ) ==> Self::payable(was, payment_amount)
                },
                Err(e) => {
                    &&& final(invoices)@ == old(invoices)@
                    &&& out_of_range(e)
                    &&& first_match(old(invoices)@, keyed(Table::Invoices, invoice_id@)) matches Some(
                        was,
                    ) && !Self::payable(was, payment_amount)
                },
            },
    {
        match locate_by_id(invoices, Table::Invoices, &invoice_id) {
            Some(i) => {
                let paid = invoices[i].amount_paid.checked_add(payment_amount);
                let balance = invoices[i].balance.checked_sub(payment_amount);
                match (paid, balance) {
                    (Some(paid), Some(balance)) => {
                        let mut n = invoices[i].clone();
                        n.amount_paid = paid;
                        n.balance = balance;
                        if balance <= 0 {
                            n.status = InvoiceStatus::Paid;
                        } else if paid > 0 {
                            n.status = InvoiceStatus::Partial;
                        }
                        n.updated_at = now;
                        let back = n.clone();
                        invoices.set(i, n);
                        Ok(Some(back))
                    },
                    _ => Err(range_error()),
                }
            },
            None => Ok(None),
        }
    }

    /// A payment of `amount` on an invoice with balance `B` leaves the
    /// balance at exactly `B - amount`; the invoice is then paid if and only
    /// if nothing is left to pay, and partly paid if and only if something
    /// is left and something has been paid. This holds of every invoice
    /// with a balance that is not negative and every amount that is not
    /// negative, but for the invoice that keeps its status and was flagged
    /// as paid or as partly paid before anything was paid on it.
    pub proof fn law_payment(v: Invoice, amount: Decimal, now: Datetime)
        requires
            v.balance >= 0,
            amount >= 0,
            v.amount_paid + amount <= i64::MAX,
            v.balance - amount > 0 && v.amount_paid + amount <= 0 ==> v.status
                != InvoiceStatus::Paid && v.status != InvoiceStatus::Partial,
        ensures
            Self::payable(v, amount),
            Self::paid_with(amount, now)(v).balance == v.balance - amount,
            Self::paid_with(amount, now)(v).amount_paid == v.amount_paid + amount,
            Self::paid_with(amount, now)(v).status == InvoiceStatus::Paid <==> v.balance - amount
                <= 0,
            Self::paid_with(amount, now)(v).status == InvoiceStatus::Partial <==> (v.balance
                - amount > 0 && v.amount_paid + amount > 0),
            v.balance - amount > 0 && v.amount_paid + amount <= 0 ==> Self::paid_with(amount, now)(
                v,
            ).status == v.status,
    {
    }

    /// A payment is owed on every invoice that can hold the new numbers:
    /// where the balance and the amount are not negative and what was paid
    /// stays a number that an invoice can hold, the payment is applied, and
    /// balance and what was paid move together by the amount.
    pub proof fn law_payment_owed(
        invoices: Seq<Invoice>,
        invoice_id: Seq<char>,
        amount: Decimal,
        now: Datetime,
    )
        requires
            first_match(invoices, keyed(Table::Invoices, invoice_id)) matches Some(was)
                && was.balance >= 0 && was.amount_paid + amount <= i64::MAX,
            amount >= 0,
        ensures
            Self::payable(
                first_match(invoices, keyed(Table::Invoices, invoice_id)).unwrap(),
                amount,
            ),
            revised_first(
                invoices,
                keyed(Table::Invoices, invoice_id),
                Self::paid_with(amount, now),
            ) matches Some(v) && v.balance == first_match(
                invoices,
                keyed(Table::Invoices, invoice_id),
            ).unwrap().balance - amount && v.amount_paid == first_match(
                invoices,
                keyed(Table::Invoices, invoice_id),
            ).unwrap().amount_paid + amount,
    {
    }

    /// What a school has invoiced and collected in a term; nothing where it
    /// raised no invoice.
    pub fn get_collection_summary(&self, invoices: &Vec<Invoice>, school_id: String, term_id: String)
        -> (r: Option<CollectionSummary>)
        ensures
            r == Self::summary(invoices@.filter(Self::billed(school_id@, term_id@))),
    {
        let keep = |v: &Invoice| -> (b: bool)
            ensures
                b == Self::billed(school_id@, term_id@)(*v),
            { v.school_id.is(Table::Schools, &school_id) && v.term_id.is(Table::Terms, &term_id) };
        let asked = |v: &Invoice| -> (a: i64)
            ensures
                a == Self::expected()(*v),
            { v.total_amount };
        let paid = |v: &Invoice| -> (a: i64)
            ensures
                a == Self::collected()(*v),
            { v.amount_paid };
        let left = |v: &Invoice| -> (a: i64)
            ensures
                a == Self::outstanding()(*v),
            { v.balance };
        let (n, expected) = tally(
            invoices,
            &keep,
            asked,
            Ghost(Self::billed(school_id@, term_id@)),
            Ghost(Self::expected()),
        );
        let (_, collected) = tally(
            invoices,
            &keep,
            paid,
            Ghost(Self::billed(school_id@, term_id@)),
            Ghost(Self::collected()),
        );
        let (_, outstanding) = tally(
            invoices,
            &keep,
            left,
            Ghost(Self::billed(school_id@, term_id@)),
            Ghost(Self::outstanding()),
        );
        if n == 0 {
            None
        } else {
            Some(
                CollectionSummary {
                    total_invoices: n as u64,
                    total_expected: expected,
                    total_collected: collected,
                    total_outstanding: outstanding,
                },
            )
        }
    }

    /// The invoices that a school raised for a term on students who are in
    /// no class.
    pub open spec fn billed_unplaced(
        students: Seq<Student>,
        school_id: Seq<char>,
        term_id: Seq<char>,
    ) -> spec_fn(Invoice) -> bool {
        |v: Invoice|
            Self::billed(school_id, term_id)(v) && !(referred(students, v.student_id) matches Some(
                s,
            ) && s.current_class_id is Some)
    }

    /// The row of the students without a class in the collection by class,
    /// where an invoice was raised on any of them.
    pub open spec fn unplaced_row(
        invoices: Seq<Invoice>,
        students: Seq<Student>,
        school_id: Seq<char>,
        term_id: Seq<char>,
    ) -> Seq<ClassCollection> {
        let sel = invoices.filter(Self::billed_unplaced(students, school_id, term_id));
        if sel.len() > 0 {
            seq![
                ClassCollection {
                    class_name: None,
                    total_invoices: sel.len() as u64,
                    total_collected: total(sel, Self::collected()) as i128,
                    total_outstanding: total(sel, Self::outstanding()) as i128,
                },
            ]
        } else {
            Seq::empty()
        }
    }

    /// What a school collected in a term, class by class: a row for each
    /// class of the school on whose students an invoice was raised, in the
    /// order of the table of classes, and last a row for the students
    /// without a class.
    pub fn get_collection_by_class(
        &self,
        invoices: &Vec<Invoice>,
        students: &Vec<Student>,
        classes: &Vec<Class>,
        school_id: String,
        term_id: String,
    ) -> (r: Vec<ClassCollection>)
        ensures
            r@ == classes@.filter_map(
                Self::class_row(invoices@, students@, school_id@, term_id@),
            ) + Self::unplaced_row(invoices@, students@, school_id@, term_id@),
    {
        let paid = |v: &Invoice| -> (a: i64)
            ensures
                a == Self::collected()(*v),
            { v.amount_paid };
        let left = |v: &Invoice| -> (a: i64)
            ensures
                a == Self::outstanding()(*v),
            { v.balance };
        let row = |c: &Class| -> (u: Option<ClassCollection>)
            ensures
                u == Self::class_row(invoices@, students@, school_id@, term_id@)(*c),
            {
                let keep = |v: &Invoice| -> (b: bool)
                    ensures
                        b == Self::billed_in_class(students@, c.id, school_id@, term_id@)(*v),
                    {
                        v.school_id.is(Table::Schools, &school_id) && v.term_id.is(
                            Table::Terms,
                            &term_id,
                        ) && match follow(students, &v.student_id) {
                            Some(s) => match &s.current_class_id {
                                Some(at) => id_is(&c.id, at.table, &at.key),
                                None => false,
                            },
                            None => false,
                        }
                    };
                let (n, collected) = tally(
                    invoices,
                    &keep,
                    &paid,
                    Ghost(Self::billed_in_class(students@, c.id, school_id@, term_id@)),
                    Ghost(Self::collected()),
                );
                let (_, outstanding) = tally(
                    invoices,
                    &keep,
                    &left,
                    Ghost(Self::billed_in_class(students@, c.id, school_id@, term_id@)),
                    Ghost(Self::outstanding()),
                );
                if c.school_id.is(Table::Schools, &school_id) && n > 0 {
                    Some(
                        ClassCollection {
                            class_name: Some(c.class_name.clone()),
                            total_invoices: n as u64,
                            total_collected: collected,
                            total_outstanding: outstanding,
                        },
                    )
                } else {
                    None
                }
            };
        let mut rows = collect(
            classes,
            row,
            Ghost(Self::class_row(invoices@, students@, school_id@, term_id@)),
        );
        let keep = |v: &Invoice| -> (b: bool)
            ensures
                b == Self::billed_unplaced(students@, school_id@, term_id@)(*v),
            {
                v.school_id.is(Table::Schools, &school_id) && v.term_id.is(Table::Terms, &term_id)
                    && !(match follow(students, &v.student_id) {
                    Some(s) => s.current_class_id.is_some(),
                    None => false,
                })
            };
        let (n, collected) = tally(
            invoices,
            &keep,
            &paid,
            Ghost(Self::billed_unplaced(students@, school_id@, term_id@)),
            Ghost(Self::collected()),
        );
        let (_, outstanding) = tally(
            invoices,
            &keep,
            &left,
            Ghost(Self::billed_unplaced(students@, school_id@, term_id@)),
            Ghost(Self::outstanding()),
        );
        if n > 0 {
            rows.push(
                ClassCollection {
                    class_name: None,
                    total_invoices: n as u64,
                    total_collected: collected,
                    total_outstanding: outstanding,
                },
            );
        }
        rows
    }

    /// Cancels an invoice.
    pub fn cancel(&self, invoices: &mut Vec<Invoice>, invoice_id: String, now: Datetime) -> (r:
        Option<Invoice>)
        ensures
            final(invoices)@ == revise_first(
                old(invoices)@,
                keyed(Table::Invoices, invoice_id@),
                Self::cancelled(now),
            ),
            r == revised_first(
                old(invoices)@,
                keyed(Table::Invoices, invoice_id@),
                Self::cancelled(now),
            ),
            r is Some <==> holds(old(invoices)@, Table::Invoices, invoice_id@),
    {
        let change = |v: &Invoice| -> (n: Invoice)
            ensures
                n == Self::cancelled(now)(*v),
            {
                let mut n = v.clone();
                n.status = InvoiceStatus::Cancelled;
                n.updated_at = now;
                n
            };
        rewrite_by_id(invoices, Table::Invoices, &invoice_id, change, Ghost(Self::cancelled(now)))
    }
}


/// The repository of payments.
pub struct PaymentQ;

impl PaymentQ {
    /// The payments of one student.
    pub open spec fn of_student(student_id: Seq<char>) -> spec_fn(Payment) -> bool {
        |p: Payment| p.student_id.names(Table::Students, student_id)
    }

    /// The payments on one invoice.
    pub open spec fn on_invoice(invoice_id: Seq<char>) -> spec_fn(Payment) -> bool {
        |p: Payment| p.invoice_id.names(Table::Invoices, invoice_id)
    }

    /// The payments with one receipt number.
    pub open spec fn receipted(receipt_number: Seq<char>) -> spec_fn(Payment) -> bool {
        |p: Payment| p.receipt_number@ == receipt_number
    }

    /// The payment that was made later comes first.
    pub open spec fn latest_first() -> spec_fn(Payment, Payment) -> bool {
        |a: Payment, b: Payment| a.payment_date > b.payment_date
    }

    /// Files a payment under `key`.
    pub fn record(&self, payments: &mut Vec<Payment>, data: Payment, key: String) -> (r: DbResult<
        Option<Payment>,
    >)
        ensures
            files(
                old(payments)@,
                final(payments)@,
                data.filed(RecordId { table: Table::Payments, key }),
                r,
            ),
    {
        create(payments, data, Table::Payments, key)
    }

    /// The payments of a student, the latest first.
    pub fn get_by_student(&self, payments: &Vec<Payment>, student_id: String) -> (r: Vec<Payment>)
        ensures
            r@ == ordered(payments@.filter(Self::of_student(student_id@)), Self::latest_first()),
            in_order(r@, Self::latest_first()),
    {
        let keep = |p: &Payment| -> (b: bool)
            ensures
                b == Self::of_student(student_id@)(*p),
            { p.student_id.is(Table::Students, &student_id) };
        let precedes = |a: &Payment, b: &Payment| -> (r: bool)
            ensures
                r == Self::latest_first()(*a, *b),
            { a.payment_date > b.payment_date };
        proof {
            law_numbers_rank(Self::latest_first(), |a: Payment| -(a.payment_date as int));
        }
        select_ordered(
            payments,
            keep,
            precedes,
            Ghost(Self::of_student(student_id@)),
            Ghost(Self::latest_first()),
        )
    }

    /// The payments on an invoice, the latest first.
    pub fn get_by_invoice(&self, payments: &Vec<Payment>, invoice_id: String) -> (r: Vec<Payment>)
        ensures
            r@ == ordered(payments@.filter(Self::on_invoice(invoice_id@)), Self::latest_first()),
            in_order(r@, Self::latest_first()),
    {
        let keep = |p: &Payment| -> (b: bool)
            ensures
                b == Self::on_invoice(invoice_id@)(*p),
            { p.invoice_id.is(Table::Invoices, &invoice_id) };
        let precedes = |a: &Payment, b: &Payment| -> (r: bool)
            ensures
                r == Self::latest_first()(*a, *b),
            { a.payment_date > b.payment_date };
        proof {
            law_numbers_rank(Self::latest_first(), |a: Payment| -(a.payment_date as int));
        }
        select_ordered(
            payments,
            keep,
            precedes,
            Ghost(Self::on_invoice(invoice_id@)),
            Ghost(Self::latest_first()),
        )
    }

    /// The payment with this receipt number: the first that the table holds.
    pub fn get_by_receipt(&self, payments: &Vec<Payment>, receipt_number: String) -> (r: Option<
        Payment,
    >)
        ensures
            r == first_match(payments@, Self::receipted(receipt_number@)),
    {
        let keep = |p: &Payment| -> (b: bool)
            ensures
                b == Self::receipted(receipt_number@)(*p),
            { p.receipt_number == receipt_number };
        find(payments, keep, Ghost(Self::receipted(receipt_number@)))
    }
}

/// The repository of payment reminders.
pub struct PaymentReminderQ;

impl PaymentReminderQ {
    /// The reminders about one invoice.
    pub open spec fn about(invoice_id: Seq<char>) -> spec_fn(PaymentReminder) -> bool {
        |m: PaymentReminder| m.invoice_id.names(Table::Invoices, invoice_id)
    }

    /// The reminder that was sent later comes first.
    pub open spec fn latest_first() -> spec_fn(PaymentReminder, PaymentReminder) -> bool {
        |a: PaymentReminder, b: PaymentReminder| a.sent_at > b.sent_at
    }

    /// Whether an invoice is still open: something is left to pay on it, and
    /// it is neither paid nor cancelled.
    pub open spec fn open_invoice(v: Invoice) -> bool {
        v.balance > 0 && v.status != InvoiceStatus::Paid && v.status != InvoiceStatus::Cancelled
    }

    /// The open invoices of a school that were due more than `days` days
    /// before `today`.
    pub open spec fn overdue_by(school_id: Seq<char>, days: u32, today: Datetime) -> spec_fn(
        Invoice,
    ) -> bool {
        |v: Invoice|
            v.school_id.names(Table::Schools, school_id) && Self::open_invoice(v) && v.due_date
                + days * SECONDS_PER_DAY < today
    }

    /// The invoices of a school that wait for payment and were due before
    /// `today`.
    pub open spec fn lapsed(school_id: Seq<char>, today: Datetime) -> spec_fn(Invoice) -> bool {
        |v: Invoice|
            v.school_id.names(Table::Schools, school_id) && v.balance > 0 && (v.status
                == InvoiceStatus::Unpaid || v.status == InvoiceStatus::Partial) && v.due_date
                < today
    }

    /// An invoice flagged as overdue at `now`.
    pub open spec fn flagged(now: Datetime) -> spec_fn(Invoice) -> Invoice {
        |v: Invoice| Invoice { status: InvoiceStatus::Overdue, updated_at: now, ..v }
    }

    /// The payments that a school received from `from` to `to`, both
    /// included: those on an invoice of the school.
    pub open spec fn received(invoices: Seq<Invoice>, school_id: Seq<char>, from: Datetime, to: Datetime)
        -> spec_fn(Payment) -> bool {
        |p: Payment|
            from <= p.payment_date <= to && (referred(invoices, p.invoice_id) matches Some(v)
                && v.school_id.names(Table::Schools, school_id))
    }

    /// What a payment brought in.
    pub open spec fn paid() -> spec_fn(Payment) -> int {
        |p: Payment| p.amount_paid as int
    }

    /// Files a reminder under `key`.
    pub fn create(&self, reminders: &mut Vec<PaymentReminder>, data: PaymentReminder, key: String)
        -> (r: DbResult<Option<PaymentReminder>>)
        ensures
            files(
                old(reminders)@,
                final(reminders)@,
                data.filed(RecordId { table: Table::PaymentReminders, key }),
                r,
            ),
    {
        create(reminders, data, Table::PaymentReminders, key)
    }

    /// The reminders about an invoice, the latest first.
    pub fn get_by_invoice(&self, reminders: &Vec<PaymentReminder>, invoice_id: String) -> (r: Vec<
        PaymentReminder,
    >)
        ensures
            r@ == ordered(reminders@.filter(Self::about(invoice_id@)), Self::latest_first()),
            in_order(r@, Self::latest_first()),
    {
        let keep = |m: &PaymentReminder| -> (b: bool)
            ensures
                b == Self::about(invoice_id@)(*m),
            { m.invoice_id.is(Table::Invoices, &invoice_id) };
        let precedes = |a: &PaymentReminder, b: &PaymentReminder| -> (r: bool)
            ensures
                r == Self::latest_first()(*a, *b),
            { a.sent_at > b.sent_at };
        proof {
            law_numbers_rank(Self::latest_first(), |a: PaymentReminder| -(a.sent_at as int));
        }
        select_ordered(
            reminders,
            keep,
            precedes,
            Ghost(Self::about(invoice_id@)),
            Ghost(Self::latest_first()),
        )
    }

    /// The open invoices of a school that were due more than `days_overdue`
    /// days before `today`, in the order of the table.
    pub fn get_overdue_candidates(
        &self,
        invoices: &Vec<Invoice>,
        school_id: String,
        days_overdue: u32,
        today: Datetime,
    ) -> (r: Vec<Invoice>)
        ensures
            r@ == invoices@.filter(Self::overdue_by(school_id@, days_overdue, today)),
            forall|i: int|
                0 <= i < r.len() ==> (#[trigger] r@[i]).school_id.names(Table::Schools, school_id@),
    {
        let keep = |v: &Invoice| -> (b: bool)
            ensures
                b == Self::overdue_by(school_id@, days_overdue, today)(*v),
            {
                v.school_id.is(Table::Schools, &school_id) && v.balance > 0 && v.status
                    != InvoiceStatus::Paid && v.status != InvoiceStatus::Cancelled && (
                v.due_date as i128) + (days_overdue as i128) * (SECONDS_PER_DAY as i128) < (
                today as i128)
            };
        select(invoices, keep, Ghost(Self::overdue_by(school_id@, days_overdue, today)))
    }

    /// Flags as overdue every invoice of a school that waits for payment and
    /// was due before `today`, and counts them.
    pub fn mark_overdue(
        &self,
        invoices: &mut Vec<Invoice>,
        school_id: String,
        today: Datetime,
        now: Datetime,
    ) -> (r: u64)
        ensures
            final(invoices)@ == revise_all(
                old(invoices)@,
                Self::lapsed(school_id@, today),
                Self::flagged(now),
            ),
            r == old(invoices)@.filter(Self::lapsed(school_id@, today)).len(),
    {
        let keep = |v: &Invoice| -> (b: bool)
            ensures
                b == Self::lapsed(school_id@, today)(*v),
            {
                v.school_id.is(Table::Schools, &school_id) && v.balance > 0 && (v.status
                    == InvoiceStatus::Unpaid || v.status == InvoiceStatus::Partial) && v.due_date
                    < today
            };
        let change = |v: &Invoice| -> (n: Invoice)
            ensures
                n == Self::flagged(now)(*v),
            {
                let mut n = v.clone();
                n.status = InvoiceStatus::Overdue;
                n.updated_at = now;
                n
            };
        let flagged = rewrite_all(
            invoices,
            keep,
            change,
            Ghost(Self::lapsed(school_id@, today)),
            Ghost(Self::flagged(now)),
        );
        flagged.len() as u64
    }

    /// How many payments a school received from `from` to `to`, and their sum.
    pub fn get_payment_stats(
        &self,
        payments: &Vec<Payment>,
        invoices: &Vec<Invoice>,
        school_id: String,
        from: Datetime,
        to: Datetime,
    ) -> (r: PaymentStats)
        ensures
            r.payments == payments@.filter(Self::received(invoices@, school_id@, from, to)).len(),
            r.total_paid == total(
                payments@.filter(Self::received(invoices@, school_id@, from, to)),
                Self::paid(),
            ),
    {
        let keep = |p: &Payment| -> (b: bool)
            ensures
                b == Self::received(invoices@, school_id@, from, to)(*p),
            {
                from <= p.payment_date && p.payment_date <= to && match follow(
                    invoices,
                    &p.invoice_id,
                ) {
                    Some(v) => v.school_id.is(Table::Schools, &school_id),
                    None => false,
                }
            };
        let amount = |p: &Payment| -> (a: i64)
            ensures
                a == Self::paid()(*p),
            { p.amount_paid };
        let (n, sum) = tally(
            payments,
            keep,
            amount,
            Ghost(Self::received(invoices@, school_id@, from, to)),
            Ghost(Self::paid()),
        );
        PaymentStats { payments: n as u64, total_paid: sum }
    }
}

} // verus!
