//! The numbers that invoices, receipts and admissions are known by.

use vstd::prelude::*;
use vstd::pervasive::VecAdditionalExecFns;
use vstd::string::StringExecFns;
use crate::error::DbResult;
use crate::error::out_of_range;
use crate::error::range_error;
use crate::table::first_index;
use crate::table::first_match;
use crate::table::lemma_first_index_alike;
use crate::table::lemma_first_index_is_first;
use crate::table::lemma_first_index_push;
use crate::table::locate;
use crate::table::revise_first;
use crate::values::RecordId;
use crate::values::Table;

verus! {

/// The character that stands for the digit `d`.
pub open spec fn digit(d: int) -> char {
    if d == 0 {
        '0'
    } else if d == 1 {
        '1'
    } else if d == 2 {
        '2'
    } else if d == 3 {
        '3'
    } else if d == 4 {
        '4'
    } else if d == 5 {
        '5'
    } else if d == 6 {
        '6'
    } else if d == 7 {
        '7'
    } else if d == 8 {
        '8'
    } else {
        '9'
    }
}

/// The decimal digits of `n`, without leading zeros.
pub open spec fn decimal(n: nat) -> Seq<char>
    decreases n,
{
    if n < 10 {
        seq![digit(n as int)]
    } else {
        decimal(n / 10).push(digit((n % 10) as int))
    }
}

/// `k` zeros.
pub open spec fn zeros(k: nat) -> Seq<char> {
    Seq::new(k, |i: int| '0')
}

/// The decimal digits of `n`, with zeros in front to make them `width` where
/// they are fewer.
pub open spec fn padded(n: nat, width: nat) -> Seq<char> {
    if decimal(n).len() < width {
        zeros((width - decimal(n).len()) as nat) + decimal(n)
    } else {
        decimal(n)
    }
}

/// A year in digits, with a minus sign in front where it is before year 0.
pub open spec fn year_text(year: int) -> Seq<char> {
    if year < 0 {
        seq!['-'] + decimal((-year) as nat)
    } else {
        decimal(year as nat)
    }
}

/// `INV-`, the year, a hyphen, and the count in at least six digits.
pub open spec fn invoice_number(year: int, count: nat) -> Seq<char> {
    seq!['I', 'N', 'V', '-'] + year_text(year) + seq!['-'] + padded(count, 6)
}

/// `RCP-`, the year, a hyphen, and the count in at least six digits.
pub open spec fn receipt_number(year: int, count: nat) -> Seq<char> {
    seq!['R', 'C', 'P', '-'] + year_text(year) + seq!['-'] + padded(count, 6)
}

/// The year, a slash, and the count in at least three digits.
pub open spec fn admission_number(year: int, count: nat) -> Seq<char> {
    year_text(year) + seq!['/'] + padded(count, 3)
}

fn digit_str(d: u64) -> (r: &'static str)
    requires
        d < 10,
    ensures
        r@ == seq![digit(d as int)],
{
    proof {
        reveal_strlit("0");
        reveal_strlit("1");
        reveal_strlit("2");
        reveal_strlit("3");
        reveal_strlit("4");
        reveal_strlit("5");
        reveal_strlit("6");
        reveal_strlit("7");
        reveal_strlit("8");
        reveal_strlit("9");
    }
    let r = if d == 0 {
        "0"
    } else if d == 1 {
        "1"
    } else if d == 2 {
        "2"
    } else if d == 3 {
        "3"
    } else if d == 4 {
        "4"
    } else if d == 5 {
        "5"
    } else if d == 6 {
        "6"
    } else if d == 7 {
        "7"
    } else if d == 8 {
        "8"
    } else {
        "9"
    };
    assert(r@ =~= seq![digit(d as int)]);
    r
}

fn push_decimal(s: &mut String, n: u64)
    ensures
        final(s)@ == old(s)@ + decimal(n as nat),
    decreases n,
{
    if n >= 10 {
        push_decimal(s, n / 10);
    }
    s.append(digit_str(n % 10));
    proof {
        if n >= 10 {
            assert(old(s)@ + decimal((n / 10) as nat) + seq![digit((n % 10) as int)] =~= old(s)@
                + decimal(n as nat));
        } else {
            assert(old(s)@ + seq![digit((n % 10) as int)] =~= old(s)@ + decimal(n as nat));
        }
    }
}

fn decimal_len(n: u64) -> (r: usize)
    ensures
        r == decimal(n as nat).len(),
        1 <= r <= 20,
{
    let mut r: usize = 1;
    let mut m: u64 = n;
    assert(pow10(0) == 1);
    assert(m * pow10((r - 1) as nat) == m) by (nonlinear_arith)
        requires
            pow10((r - 1) as nat) == 1,
    ;
    while m >= 10
        invariant
            1 <= r,
            r + decimal(m as nat).len() == decimal(n as nat).len() + 1,
            m < 10 ==> r <= 20,
            m >= 10 ==> r <= 19 && m * pow10((r - 1) as nat) <= u64::MAX,
        decreases m,
    {
        proof {
            assert(pow10(r as nat) == 10 * pow10((r - 1) as nat));
            assert((m / 10) * pow10(r as nat) <= m * pow10((r - 1) as nat)) by (nonlinear_arith)
                requires
                    pow10(r as nat) == 10 * pow10((r - 1) as nat),
                    m >= 0,
            ;
            lemma_pow10_grows(r as nat);
            if m / 10 >= 10 {
                assert(10 * pow10(r as nat) <= (m / 10) * pow10(r as nat)) by (nonlinear_arith)
                    requires
                        m / 10 >= 10,
                        pow10(r as nat) > 0,
                ;
                lemma_pow10_grows(19);
                if r >= 19 {
                    lemma_pow10_monotone(19, r as nat);
                }
            }
        }
        m = m / 10;
        r = r + 1;
    }
    r
}

/// Ten to the `k`.
pub open spec fn pow10(k: nat) -> nat
    decreases k,
{
    if k == 0 {
        1
    } else {
        10 * pow10((k - 1) as nat)
    }
}

proof fn lemma_pow10_grows(k: nat)
    ensures
        pow10(k) > 0,
        k >= 19 ==> pow10(k) >= 10_000_000_000_000_000_000,
    decreases k,
{
    if k > 0 {
        lemma_pow10_grows((k - 1) as nat);
    }
    if k == 19 {
        reveal_with_fuel(pow10, 20);
        assert(pow10(19) == 10_000_000_000_000_000_000);
    }
}

proof fn lemma_pow10_monotone(a: nat, b: nat)
    requires
        a <= b,
    ensures
        pow10(a) <= pow10(b),
    decreases b,
{
    if a < b {
        lemma_pow10_monotone(a, (b - 1) as nat);
    }
}

fn push_padded(s: &mut String, n: u64, width: usize)
    requires
        width <= 20,
    ensures
        final(s)@ == old(s)@ + padded(n as nat, width as nat),
{
    let have = decimal_len(n);
    let mut k: usize = 0;
    if have < width {
        while k < width - have
            invariant
                have < width <= 20,
                k <= width - have,
                s@ == old(s)@ + zeros(k as nat),
            decreases width - have - k,
        {
            s.append(digit_str(0));
            k = k + 1;
            assert(old(s)@ + zeros((k - 1) as nat) + seq![digit(0)] =~= old(s)@ + zeros(k as nat));
        }
        assert(k == width - have);
    } else {
        assert(old(s)@ + zeros(0) =~= old(s)@);
    }
    let ghost before = s@;
    push_decimal(s, n);
    proof {
        if have < width {
            assert(old(s)@ + zeros(k as nat) + decimal(n as nat) =~= old(s)@ + (zeros(k as nat)
                + decimal(n as nat)));
        }
    }
}

fn push_year(s: &mut String, year: i32)
    ensures
        final(s)@ == old(s)@ + year_text(year as int),
{
    if year < 0 {
        proof {
            reveal_strlit("-");
        }
        s.append("-");
        let positive: u64 = (-(year as i64)) as u64;
        push_decimal(s, positive);
        assert(old(s)@ + "-"@ + decimal(positive as nat) =~= old(s)@ + (seq!['-'] + decimal(
            (-year) as nat,
        )));
    } else {
        push_decimal(s, year as u64);
    }
}

/// The number of the `count`-th invoice of a year: `INV-`, the year, a
/// hyphen, and the count in six digits, or more where six do not hold it.
pub fn generate_invoice_number(year: i32, count: u64) -> (r: String)
    ensures
        r@ == invoice_number(year as int, count as nat),
{
    proof {
        reveal_strlit("INV-");
        reveal_strlit("-");
    }
    let mut s = String::from_str("INV-");
    assert(s@ =~= seq!['I', 'N', 'V', '-']);
    push_year(&mut s, year);
    s.append("-");
    assert("-"@ =~= seq!['-']);
    push_padded(&mut s, count, 6);
    s
}

/// The number of the `count`-th receipt of a year: `RCP-`, the year, a
/// hyphen, and the count in six digits, or more where six do not hold it.
pub fn generate_receipt_number(year: i32, count: u64) -> (r: String)
    ensures
        r@ == receipt_number(year as int, count as nat),
{
    proof {
        reveal_strlit("RCP-");
        reveal_strlit("-");
    }
    let mut s = String::from_str("RCP-");
    assert(s@ =~= seq!['R', 'C', 'P', '-']);
    push_year(&mut s, year);
    s.append("-");
    assert("-"@ =~= seq!['-']);
    push_padded(&mut s, count, 6);
    s
}

/// The number of the `count`-th admission of a year: the year, a slash, and
/// the count in three digits, or more where three do not hold it.
pub fn generate_admission_number(year: i32, count: u64) -> (r: String)
    ensures
        r@ == admission_number(year as int, count as nat),
{
    proof {
        reveal_strlit("/");
    }
    let mut s = String::new();
    push_year(&mut s, year);
    assert(s@ =~= year_text(year as int));
    s.append("/");
    assert("/"@ =~= seq!['/']);
    push_padded(&mut s, count, 3);
    s
}


/// The counter of one school: the last sequence number that was handed
/// out to it.
#[derive(Debug)]
pub struct Sequence {
    pub school_id: RecordId,
    pub last: u64,
}

impl Clone for Sequence {
    fn clone(&self) -> (r: Self)
        ensures
            r == *self,
    {
        Sequence { school_id: self.school_id.clone(), last: self.last }
    }
}

/// The counters of one school.
pub open spec fn counting_for(school_id: Seq<char>) -> spec_fn(Sequence) -> bool {
    |c: Sequence| c.school_id.names(Table::Schools, school_id)
}

/// The last sequence number that was handed out to a school: that of its
/// first counter, and zero where it has none.
pub open spec fn last_of(counters: Seq<Sequence>, school_id: Seq<char>) -> nat {
    match first_match(counters, counting_for(school_id)) {
        Some(c) => c.last as nat,
        None => 0,
    }
}

/// A counter moved on by one.
pub open spec fn moved_on() -> spec_fn(Sequence) -> Sequence {
    |c: Sequence| Sequence { last: (c.last + 1) as u64, ..c }
}

/// The counters once the next number of a school has been handed out: the
/// first counter of the school is moved on by one, or, where the school has
/// none, a counter that stands at one joins the table at the end.
pub open spec fn handed_out(counters: Seq<Sequence>, school_id: String) -> Seq<Sequence> {
    if first_match(counters, counting_for(school_id@)) is Some {
        revise_first(counters, counting_for(school_id@), moved_on())
    } else {
        counters.push(
            Sequence { school_id: RecordId { table: Table::Schools, key: school_id }, last: 1 },
        )
    }
}

/// Handing out a number to a school moves the school's count on by one and
/// leaves the count of every other school as it was.
pub proof fn law_sequence_advances(counters: Seq<Sequence>, school_id: String, other: Seq<char>)
    requires
        last_of(counters, school_id@) < u64::MAX,
    ensures
        last_of(handed_out(counters, school_id), school_id@) == last_of(counters, school_id@) + 1,
        other != school_id@ ==> last_of(handed_out(counters, school_id), other) == last_of(
            counters,
            other,
        ),
{
    let mine = counting_for(school_id@);
    let after = handed_out(counters, school_id);
    lemma_first_index_is_first(counters, mine);
    let i = first_index(counters, mine);
    if i < counters.len() {
        assert(after == counters.update(i, moved_on()(counters[i])));
        assert forall|j: int| 0 <= j < counters.len() implies mine(#[trigger] counters[j])
            == mine(after[j]) by {}
        lemma_first_index_alike(counters, after, mine);
        if other != school_id@ {
            let theirs = counting_for(other);
            assert forall|j: int| 0 <= j < counters.len() implies theirs(#[trigger] counters[j])
                == theirs(after[j]) by {}
            lemma_first_index_alike(counters, after, theirs);
            lemma_first_index_is_first(counters, theirs);
            let k = first_index(counters, theirs);
            if k < counters.len() {
                assert(k != i);
                assert(after[k] == counters[k]);
            }
        }
    } else {
        let fresh = Sequence { school_id: RecordId { table: Table::Schools, key: school_id }, last: 1 };
        assert(after == counters.push(fresh));
        lemma_first_index_push(counters, fresh, mine);
        assert(after[counters.len() as int] == fresh);
        if other != school_id@ {
            let theirs = counting_for(other);
            lemma_first_index_push(counters, fresh, theirs);
            lemma_first_index_is_first(counters, theirs);
            let k = first_index(counters, theirs);
            if k < counters.len() {
                assert(after[k] == counters[k]);
            }
        }
    }
}

/// Of two numbers handed out to a school one after the other, the second is
/// the higher: it is the first and one.
pub proof fn law_sequence_rises(counters: Seq<Sequence>, school_id: String)
    requires
        last_of(counters, school_id@) + 1 < u64::MAX,
    ensures
        last_of(handed_out(handed_out(counters, school_id), school_id), school_id@) == last_of(
            handed_out(counters, school_id),
            school_id@,
        ) + 1,
        last_of(handed_out(counters, school_id), school_id@) == last_of(counters, school_id@) + 1,
{
    law_sequence_advances(counters, school_id, school_id@);
    law_sequence_advances(handed_out(counters, school_id), school_id, school_id@);
}

/// Hands out the next sequence number of a school: one more than the last
/// that was handed out to it, and one where none was; the school's counter
/// moves on, and no other does. Where the counter cannot go higher, nothing
/// changes and the store's range error is returned.
pub fn next_seq(counters: &mut Vec<Sequence>, school_id: String) -> (r: DbResult<u64>)
    ensures
        match r {
            Ok(n) => {
                &&& n == last_of(old(counters)@, school_id@) + 1
                &&& final(counters)@ == handed_out(old(counters)@, school_id)
                &&& last_of(final(counters)@, school_id@) == n
                &&& forall|other: Seq<char>|
                    other != school_id@ ==> #[trigger] last_of(final(counters)@, other) == last_of(
                        old(counters)@,
                        other,
                    )
            },
            Err(e) => {
                &&& final(counters)@ == old(counters)@
                &&& out_of_range(e)
                &&& last_of(old(counters)@, school_id@) == u64::MAX
            },
        },
{
    let keep = |c: &Sequence| -> (b: bool)
        ensures
            b == counting_for(school_id@)(*c),
        { c.school_id.is(Table::Schools, &school_id) };
    proof {
        lemma_first_index_is_first(counters@, counting_for(school_id@));
    }
    let n = match locate(counters, keep, Ghost(counting_for(school_id@))) {
        Some(i) => {
            if counters[i].last == u64::MAX {
                return Err(range_error());
            }
            let moved = Sequence { school_id: counters[i].school_id.clone(), last: counters[i].last + 1 };
            let n = moved.last;
            counters.set(i, moved);
            n
        },
        None => {
            counters.push(Sequence { school_id: RecordId::new(Table::Schools, school_id), last: 1 });
            1
        },
    };
    proof {
        assert forall|other: Seq<char>| other != school_id@ implies #[trigger] last_of(
            counters@,
            other,
        ) == last_of(old(counters)@, other) by {
            law_sequence_advances(old(counters)@, school_id, other);
        }
        law_sequence_advances(old(counters)@, school_id, school_id@);
    }
    Ok(n)
}

/// Hands out the next invoice number of a school from the counters of
/// invoices: one more than the last that was handed out to it.
pub fn next_invoice_seq(invoice_counters: &mut Vec<Sequence>, school_id: String) -> (r: DbResult<
    u64,
>)
    ensures
        match r {
            Ok(n) => {
                &&& n == last_of(old(invoice_counters)@, school_id@) + 1
                &&& final(invoice_counters)@ == handed_out(old(invoice_counters)@, school_id)
                &&& last_of(final(invoice_counters)@, school_id@) == n
                &&& forall|other: Seq<char>|
                    other != school_id@ ==> #[trigger] last_of(final(invoice_counters)@, other)
                        == last_of(old(invoice_counters)@, other)
            },
            Err(e) => {
                &&& final(invoice_counters)@ == old(invoice_counters)@
                &&& out_of_range(e)
                &&& last_of(old(invoice_counters)@, school_id@) == u64::MAX
            },
        },
{
    next_seq(invoice_counters, school_id)
}

/// Hands out the next receipt number of a school from the counters of
/// receipts: one more than the last that was handed out to it.
pub fn next_receipt_seq(receipt_counters: &mut Vec<Sequence>, school_id: String) -> (r: DbResult<
    u64,
>)
    ensures
        match r {
            Ok(n) => {
                &&& n == last_of(old(receipt_counters)@, school_id@) + 1
                &&& final(receipt_counters)@ == handed_out(old(receipt_counters)@, school_id)
                &&& last_of(final(receipt_counters)@, school_id@) == n
                &&& forall|other: Seq<char>|
                    other != school_id@ ==> #[trigger] last_of(final(receipt_counters)@, other)
                        == last_of(old(receipt_counters)@, other)
            },
            Err(e) => {
                &&& final(receipt_counters)@ == old(receipt_counters)@
                &&& out_of_range(e)
                &&& last_of(old(receipt_counters)@, school_id@) == u64::MAX
            },
        },
{
    next_seq(receipt_counters, school_id)
}

/// Whether a character stands for a digit.
pub open spec fn is_digit(c: char) -> bool {
    c == '0' || c == '1' || c == '2' || c == '3' || c == '4' || c == '5' || c == '6' || c == '7'
        || c == '8' || c == '9'
}

/// The digit that a character stands for.
pub open spec fn digit_value(c: char) -> nat {
    if c == '0' {
        0
    } else if c == '1' {
        1
    } else if c == '2' {
        2
    } else if c == '3' {
        3
    } else if c == '4' {
        4
    } else if c == '5' {
        5
    } else if c == '6' {
        6
    } else if c == '7' {
        7
    } else if c == '8' {
        8
    } else {
        9
    }
}

/// The number that a sequence of digits stands for.
pub open spec fn number(s: Seq<char>) -> nat
    decreases s.len(),
{
    if s.len() == 0 {
        0
    } else {
        number(s.drop_last()) * 10 + digit_value(s.last())
    }
}

proof fn lemma_decimal_digits(n: nat)
    ensures
        decimal(n).len() >= 1,
        forall|i: int| 0 <= i < decimal(n).len() ==> is_digit(#[trigger] decimal(n)[i]),
        number(decimal(n)) == n,
    decreases n,
{
    if n < 10 {
        assert(decimal(n) == seq![digit(n as int)]);
        assert(decimal(n).drop_last() == Seq::<char>::empty());
        assert(number(Seq::<char>::empty()) == 0);
    } else {
        lemma_decimal_digits(n / 10);
        let front = decimal(n / 10);
        assert(decimal(n).drop_last() == front);
        assert(decimal(n).last() == digit((n % 10) as int));
        assert forall|i: int| 0 <= i < decimal(n).len() implies is_digit(
            #[trigger] decimal(n)[i],
        ) by {
            if i < front.len() {
                assert(decimal(n)[i] == front[i]);
            }
        }
    }
}

proof fn lemma_zeros_count_nothing(k: nat, s: Seq<char>)
    ensures
        number(zeros(k) + s) == number(s),
    decreases s.len(), k,
{
    if s.len() == 0 {
        assert(zeros(k) + s == zeros(k));
        if k > 0 {
            assert(zeros(k).drop_last() == zeros((k - 1) as nat));
            lemma_zeros_count_nothing((k - 1) as nat, s);
            assert(zeros((k - 1) as nat) + s == zeros((k - 1) as nat));
        }
    } else {
        assert((zeros(k) + s).drop_last() == zeros(k) + s.drop_last());
        lemma_zeros_count_nothing(k, s.drop_last());
    }
}

proof fn lemma_padded(n: nat, width: nat)
    ensures
        padded(n, width).len() >= 1,
        forall|i: int| 0 <= i < padded(n, width).len() ==> is_digit(#[trigger] padded(n, width)[i]),
        number(padded(n, width)) == n,
{
    lemma_decimal_digits(n);
    if decimal(n).len() < width {
        lemma_zeros_count_nothing((width - decimal(n).len()) as nat, decimal(n));
    }
}

proof fn lemma_year_text(year: int)
    ensures
        year_text(year).len() >= 1,
        is_digit(year_text(year)[0]) || year_text(year)[0] == '-',
        forall|i: int| 1 <= i < year_text(year).len() ==> is_digit(#[trigger] year_text(year)[i]),
{
    if year < 0 {
        lemma_decimal_digits((-year) as nat);
        assert forall|i: int| 1 <= i < year_text(year).len() implies is_digit(
            #[trigger] year_text(year)[i],
        ) by {
            assert(year_text(year)[i] == decimal((-year) as nat)[i - 1]);
        }
    } else {
        lemma_decimal_digits(year as nat);
    }
}

proof fn lemma_year_text_tells_the_year(y1: int, y2: int)
    requires
        year_text(y1) == year_text(y2),
    ensures
        y1 == y2,
{
    if y1 < 0 {
        lemma_decimal_digits((-y1) as nat);
        assert(year_text(y1)[0] == '-');
        if y2 < 0 {
            lemma_decimal_digits((-y2) as nat);
            assert(year_text(y1).skip(1) == decimal((-y1) as nat));
            assert(year_text(y2).skip(1) == decimal((-y2) as nat));
        } else {
            lemma_decimal_digits(y2 as nat);
            assert(is_digit(year_text(y2)[0]));
        }
    } else {
        lemma_decimal_digits(y1 as nat);
        if y2 < 0 {
            assert(year_text(y2)[0] == '-');
            assert(is_digit(year_text(y1)[0]));
        } else {
            lemma_decimal_digits(y2 as nat);
        }
    }
}

/// A year, a separator and a count can be told apart again: where two such
/// texts are the same, so are the years and the counts. The separator is a
/// hyphen or a slash.
proof fn lemma_parts_tell(y1: int, c1: nat, y2: int, c2: nat, width: nat, mark: char)
    requires
        mark == '-' || mark == '/',
        year_text(y1) + seq![mark] + padded(c1, width) == year_text(y2) + seq![mark] + padded(
            c2,
            width,
        ),
    ensures
        y1 == y2,
        c1 == c2,
{
    let a1 = year_text(y1);
    let a2 = year_text(y2);
    let b1 = padded(c1, width);
    let b2 = padded(c2, width);
    let t1 = a1 + seq![mark] + b1;
    let t2 = a2 + seq![mark] + b2;
    lemma_year_text(y1);
    lemma_year_text(y2);
    lemma_padded(c1, width);
    lemma_padded(c2, width);
    if a1.len() < a2.len() {
        assert(t1[a1.len() as int] == mark);
        assert(t2[a1.len() as int] == a2[a1.len() as int]);
        assert(is_digit(a2[a1.len() as int]));
    } else if a2.len() < a1.len() {
        assert(t2[a2.len() as int] == mark);
        assert(t1[a2.len() as int] == a1[a2.len() as int]);
        assert(is_digit(a1[a2.len() as int]));
    } else {
        assert(t1.take(a1.len() as int) == a1);
        assert(t2.take(a2.len() as int) == a2);
        assert(t1.skip(a1.len() as int + 1) == b1);
        assert(t2.skip(a2.len() as int + 1) == b2);
        lemma_year_text_tells_the_year(y1, y2);
    }
}

/// No two invoices of a year get one number, and no invoice gets the number
/// of an invoice of another year.
pub proof fn law_invoice_numbers_differ(y1: int, c1: nat, y2: int, c2: nat)
    requires
        invoice_number(y1, c1) == invoice_number(y2, c2),
    ensures
        y1 == y2,
        c1 == c2,
{
    let head = seq!['I', 'N', 'V', '-'];
    let t1 = year_text(y1) + seq!['-'] + padded(c1, 6);
    let t2 = year_text(y2) + seq!['-'] + padded(c2, 6);
    assert(invoice_number(y1, c1) == head + t1);
    assert(invoice_number(y2, c2) == head + t2);
    assert((head + t1).skip(4) == t1);
    assert((head + t2).skip(4) == t2);
    lemma_parts_tell(y1, c1, y2, c2, 6, '-');
}

/// No two receipts of a year get one number, and no receipt gets the number
/// of a receipt of another year.
pub proof fn law_receipt_numbers_differ(y1: int, c1: nat, y2: int, c2: nat)
    requires
        receipt_number(y1, c1) == receipt_number(y2, c2),
    ensures
        y1 == y2,
        c1 == c2,
{
    let head = seq!['R', 'C', 'P', '-'];
    let t1 = year_text(y1) + seq!['-'] + padded(c1, 6);
    let t2 = year_text(y2) + seq!['-'] + padded(c2, 6);
    assert(receipt_number(y1, c1) == head + t1);
    assert(receipt_number(y2, c2) == head + t2);
    assert((head + t1).skip(4) == t1);
    assert((head + t2).skip(4) == t2);
    lemma_parts_tell(y1, c1, y2, c2, 6, '-');
}

/// No two admissions of a year get one number, and no admission gets the
/// number of an admission of another year.
pub proof fn law_admission_numbers_differ(y1: int, c1: nat, y2: int, c2: nat)
    requires
        admission_number(y1, c1) == admission_number(y2, c2),
    ensures
        y1 == y2,
        c1 == c2,
{
    lemma_parts_tell(y1, c1, y2, c2, 3, '/');
}

} // verus!
