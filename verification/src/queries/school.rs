//! Schools: the tenants.

use vstd::prelude::*;
use crate::error::DbResult;
use crate::helpers::create_update_dtos::CreateSchoolDto;
use crate::models::School;
use crate::models::SubscriptionStatus;
use crate::table::create;
use crate::table::files;
use crate::table::find_by_id;
use crate::table::first_match;
use crate::table::holds;
use crate::table::in_order;
use crate::table::keyed;
use crate::table::law_numbers_rank;
use crate::table::ordered;
use crate::table::Record;
use crate::table::revise_first;
use crate::table::revised_first;
use crate::table::rewrite_by_id;
use crate::table::select;
use crate::table::select_ordered;
use crate::values::Datetime;
use crate::values::earlier;
use crate::values::is_earlier;
use crate::values::RecordId;
use crate::values::SECONDS_PER_DAY;
use crate::values::standing;
use crate::values::Table;

verus! {

/// The repository of schools.
pub struct SchoolQ;

impl SchoolQ {
    /// The school that is filed for what was registered at `now`: on
    /// trial, and without students.
    pub open spec fn registered(data: CreateSchoolDto, now: Datetime) -> School {
        School {
            id: None,
            school_name: data.school_name,
            school_address: data.school_address,
            school_phone: data.school_phone,
            school_email: data.school_email,
            school_logo_url: None,
            school_motto: None,
            total_students: 0,
            subscription_plan: data.subscription_plan,
            subscription_expiry_date: None,
            subscription_status: SubscriptionStatus::Trial,
            created_at: now,
            updated_at: now,
        }
    }

    /// The schools whose subscription is active.
    pub open spec fn active() -> spec_fn(School) -> bool {
        |s: School| s.subscription_status == SubscriptionStatus::Active
    }

    /// The schools whose subscription expires at `now` or later, and
    /// within `days` days of `now`.
    pub open spec fn expiring(days: u32, now: Datetime) -> spec_fn(School) -> bool {
        |s: School|
            s.subscription_expiry_date matches Some(at) && now <= at <= now + days
                * SECONDS_PER_DAY
    }

    /// The school whose subscription expires earlier comes first.
    pub open spec fn soonest_first() -> spec_fn(School, School) -> bool {
        |a: School, b: School| earlier(a.subscription_expiry_date, b.subscription_expiry_date)
    }

    /// A school with another name and address, as of `now`.
    pub open spec fn renamed(name: String, address: Option<String>, now: Datetime) -> spec_fn(
        School,
    ) -> School {
        |s: School| School { school_name: name, school_address: address, updated_at: now, ..s }
    }

    /// A school with another subscription status, as of `now`.
    pub open spec fn with_status(status: SubscriptionStatus, now: Datetime) -> spec_fn(School)
        -> School {
        |s: School| School { subscription_status: status, updated_at: now, ..s }
    }

    /// Files the school that was registered, under `key`.
    pub fn create(&self, schools: &mut Vec<School>, data: CreateSchoolDto, key: String, now: Datetime)
        -> (r: DbResult<Option<School>>)
        ensures
            files(
                old(schools)@,
                final(schools)@,
                Self::registered(data, now).filed(RecordId { table: Table::Schools, key }),
                r,
            ),
    {
        let record = School {
            id: None,
            school_name: data.school_name,
            school_address: data.school_address,
            school_phone: data.school_phone,
            school_email: data.school_email,
            school_logo_url: None,
            school_motto: None,
            total_students: 0,
            subscription_plan: data.subscription_plan,
            subscription_expiry_date: None,
            subscription_status: SubscriptionStatus::Trial,
            created_at: now,
            updated_at: now,
        };
        create(schools, record, Table::Schools, key)
    }

    /// The school filed under `school_id`.
    pub fn get_by_id(&self, schools: &Vec<School>, school_id: String) -> (r: Option<School>)
        ensures
            r == first_match(schools@, keyed(Table::Schools, school_id@)),
            r is Some <==> holds(schools@, Table::Schools, school_id@),
    {
        find_by_id(schools, Table::Schools, &school_id)
    }

    /// Gives a school another name and address.
    pub fn update(
        &self,
        schools: &mut Vec<School>,
        school_id: String,
        name: String,
        address: Option<String>,
        now: Datetime,
    ) -> (r: Option<School>)
        ensures
            final(schools)@ == revise_first(
                old(schools)@,
                keyed(Table::Schools, school_id@),
                Self::renamed(name, address, now),
            ),
            r == revised_first(
                old(schools)@,
                keyed(Table::Schools, school_id@),
                Self::renamed(name, address, now),
            ),
            r is Some <==> holds(old(schools)@, Table::Schools, school_id@),
    {
        let ghost apply = Self::renamed(name, address, now);
        let change = |s: &School| -> (n: School)
            ensures
                n == apply(*s),
            {
                let mut n = s.clone();
                n.school_name = name.clone();
                n.school_address = address.clone();
                n.updated_at = now;
                n
            };
        rewrite_by_id(schools, Table::Schools, &school_id, change, Ghost(apply))
    }

    /// The schools whose subscription is active, in the order of the table.
    pub fn get_active(&self, schools: &Vec<School>) -> (r: Vec<School>)
        ensures
            r@ == schools@.filter(Self::active()),
    {
        let keep = |s: &School| -> (b: bool)
            ensures
                b == Self::active()(*s),
            { s.subscription_status == SubscriptionStatus::Active };
        select(schools, keep, Ghost(Self::active()))
    }

    /// The schools whose subscription expires within `days` days of `now`,
    /// the one that expires soonest first.
    pub fn get_expiring_soon(&self, schools: &Vec<School>, days: u32, now: Datetime) -> (r: Vec<
        School,
    >)
        ensures
            r@ == ordered(schools@.filter(Self::expiring(days, now)), Self::soonest_first()),
            in_order(r@, Self::soonest_first()),
    {
        let keep = |s: &School| -> (b: bool)
            ensures
                b == Self::expiring(days, now)(*s),
            {
                match s.subscription_expiry_date {
                    Some(at) => now <= at && (at as i128) <= (now as i128) + (days as i128) * (
                    SECONDS_PER_DAY as i128),
                    None => false,
                }
            };
        let precedes = |a: &School, b: &School| -> (r: bool)
            ensures
                r == Self::soonest_first()(*a, *b),
            { is_earlier(a.subscription_expiry_date, b.subscription_expiry_date) };
        proof {
            law_numbers_rank(Self::soonest_first(), |a: School| standing(a.subscription_expiry_date));
        }
        select_ordered(
            schools,
            keep,
            precedes,
            Ghost(Self::expiring(days, now)),
            Ghost(Self::soonest_first()),
        )
    }

    /// Sets the subscription status of a school.
    pub fn update_subscription_status(
        &self,
        schools: &mut Vec<School>,
        school_id: String,
        status: SubscriptionStatus,
        now: Datetime,
    ) -> (r: Option<School>)
        ensures
            final(schools)@ == revise_first(
                old(schools)@,
                keyed(Table::Schools, school_id@),
                Self::with_status(status, now),
            ),
            r == revised_first(
                old(schools)@,
                keyed(Table::Schools, school_id@),
                Self::with_status(status, now),
            ),
            r is Some <==> holds(old(schools)@, Table::Schools, school_id@),
    {
        let change = |s: &School| -> (n: School)
            ensures
                n == Self::with_status(status, now)(*s),
            {
                let mut n = s.clone();
                n.subscription_status = status;
                n.updated_at = now;
                n
            };
        rewrite_by_id(schools, Table::Schools, &school_id, change, Ghost(Self::with_status(status, now)))
    }
}

} // verus!
