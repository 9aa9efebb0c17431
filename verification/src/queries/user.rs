//! Users: the people who can sign in, each within one school.

use vstd::prelude::*;
use crate::error::DbResult;
use crate::error::Error;
use crate::models::School;
use crate::models::User;
use crate::models::UserStatus;
use crate::models::UserType;
use crate::table::any;
use crate::table::create;
use crate::table::find;
use crate::table::find_by_id;
use crate::table::first_match;
use crate::table::holds;
use crate::table::keyed;
use crate::table::lemma_filter_single;
use crate::table::Record;
use crate::table::revise_first;
use crate::table::revised_first;
use crate::table::rewrite_by_id;
use crate::table::select;
use crate::values::Datetime;
use crate::values::RecordId;
use crate::values::Table;

verus! {

/// The repository of users.
pub struct UserQ;

impl UserQ {
    /// The users whose email address is `email`.
    pub open spec fn with_email(email: Seq<char>) -> spec_fn(User) -> bool {
        |u: User| u.email is Some && u.email.unwrap()@ == email
    }

    /// The users whose phone number is `phone`.
    pub open spec fn with_phone(phone: Seq<char>) -> spec_fn(User) -> bool {
        |u: User| u.phone_number is Some && u.phone_number.unwrap()@ == phone
    }

    /// The users of one school who have one role.
    pub open spec fn of_type(school_id: Seq<char>, user_type: UserType) -> spec_fn(User) -> bool {
        |u: User| u.school_id.names(Table::Schools, school_id) && u.user_type == user_type
    }

    /// The teachers of one school who may sign in.
    pub open spec fn teaching(school_id: Seq<char>) -> spec_fn(User) -> bool {
        |u: User|
            u.school_id.names(Table::Schools, school_id) && u.user_type == UserType::Teacher
                && u.status == UserStatus::Active
    }

    /// Whether a user with this email address is in the table; a user
    /// without an address clashes with none.
    pub open spec fn email_taken(users: Seq<User>, email: Option<String>) -> bool {
        email is Some && first_match(users, Self::with_email(email.unwrap()@)) is Some
    }

    /// A user after signing in at `now`.
    pub open spec fn signed_in(now: Datetime) -> spec_fn(User) -> User {
        |u: User| User { last_login: Some(now), updated_at: now, ..u }
    }

    /// A user after a change of status at `now`.
    pub open spec fn with_status(status: UserStatus, now: Datetime) -> spec_fn(User) -> User {
        |u: User| User { status, updated_at: now, ..u }
    }

    /// Files a user under `key`. No two users share a key or an email
    /// address: where one of them is taken, nothing is filed.
    pub fn create(&self, users: &mut Vec<User>, data: User, key: String) -> (r: DbResult<
        Option<User>,
    >)
        ensures
            match r {
                Ok(made) => {
                    &&& made == Some(data.filed(RecordId { table: Table::Users, key }))
                    &&& final(users)@ == old(users)@.push(data.filed(RecordId { table: Table::Users, key }))
                    &&& !holds(old(users)@, Table::Users, key@)
                    &&& !Self::email_taken(old(users)@, data.email)
                },
                Err(e) => {
                    &&& final(users)@ == old(users)@
                    &&& if holds(old(users)@, Table::Users, key@) {
                        e == Error::Duplicate(key)
                    } else {
                        Self::email_taken(old(users)@, data.email) && e == Error::Duplicate(
                            data.email.unwrap(),
                        )
                    }
                },
            },
    {
        if find_by_id(users, Table::Users, &key).is_some() {
            return Err(Error::Duplicate(key));
        }
        let clash = match &data.email {
            Some(email) => {
                let keep = |u: &User| -> (b: bool)
                    ensures
                        b == Self::with_email(email@)(*u),
                    {
                        match &u.email {
                            Some(e) => *e == *email,
                            None => false,
                        }
                    };
                any(users, keep, Ghost(Self::with_email(email@)))
            },
            None => false,
        };
        if clash {
            return Err(Error::Duplicate(data.email.unwrap()));
        }
        create(users, data, Table::Users, key)
    }

    /// A user filed for a school that had no user yet is what a listing of
    /// that school by the user's role holds, and all that it holds: no user
    /// of another school is in it.
    pub proof fn law_first_user_of_a_school(
        users: Seq<User>,
        data: User,
        key: String,
        school_id: Seq<char>,
    )
        requires
            data.school_id.names(Table::Schools, school_id),
            forall|i: int|
                0 <= i < users.len() ==> !(#[trigger] users[i]).school_id.names(
                    Table::Schools,
                    school_id,
                ),
        ensures
            users.push(data.filed(RecordId { table: Table::Users, key })).filter(
                Self::of_type(school_id, data.user_type),
            ) == seq![data.filed(RecordId { table: Table::Users, key })],
    {
        let made = data.filed(RecordId { table: Table::Users, key });
        let after = users.push(made);
        assert(after[users.len() as int] == made);
        assert forall|j: int| 0 <= j < after.len() && j != users.len() implies !Self::of_type(
            school_id,
            data.user_type,
        )(#[trigger] after[j]) by {
            assert(after[j] == users[j]);
        }
        lemma_filter_single(
            after,
            Self::of_type(school_id, data.user_type),
            users.len() as int,
        );
    }

    /// The user with this email address.
    pub fn find_by_email(&self, users: &Vec<User>, email: String) -> (r: Option<User>)
        ensures
            r == first_match(users@, Self::with_email(email@)),
            r is Some ==> r.unwrap().email is Some && r.unwrap().email.unwrap()@ == email@,
    {
        let keep = |u: &User| -> (b: bool)
            ensures
                b == Self::with_email(email@)(*u),
            {
                match &u.email {
                    Some(e) => *e == email,
                    None => false,
                }
            };
        find(users, keep, Ghost(Self::with_email(email@)))
    }

    /// The first user with this phone number.
    pub fn find_by_phone(&self, users: &Vec<User>, phone: String) -> (r: Option<User>)
        ensures
            r == first_match(users@, Self::with_phone(phone@)),
            r is Some ==> r.unwrap().phone_number is Some && r.unwrap().phone_number.unwrap()@
                == phone@,
    {
        let keep = |u: &User| -> (b: bool)
            ensures
                b == Self::with_phone(phone@)(*u),
            {
                match &u.phone_number {
                    Some(p) => *p == phone,
                    None => false,
                }
            };
        find(users, keep, Ghost(Self::with_phone(phone@)))
    }

    /// The teachers of a school who may sign in, in the order of the table.
    pub fn get_teachers(&self, users: &Vec<User>, school_id: String) -> (r: Vec<User>)
        ensures
            r@ == users@.filter(Self::teaching(school_id@)),
            forall|i: int|
                0 <= i < r.len() ==> (#[trigger] r@[i]).school_id.names(Table::Schools, school_id@),
    {
        let keep = |u: &User| -> (b: bool)
            ensures
                b == Self::teaching(school_id@)(*u),
            {
                u.school_id.is(Table::Schools, &school_id) && u.user_type == UserType::Teacher
                    && u.status == UserStatus::Active
            };
        select(users, keep, Ghost(Self::teaching(school_id@)))
    }

    /// The users of a school who have one role, in the order of the table.
    pub fn get_by_type(&self, users: &Vec<User>, school_id: String, user_type: UserType) -> (r:
        Vec<User>)
        ensures
            r@ == users@.filter(Self::of_type(school_id@, user_type)),
            forall|i: int|
                0 <= i < r.len() ==> (#[trigger] r@[i]).school_id.names(Table::Schools, school_id@),
    {
        let keep = |u: &User| -> (b: bool)
            ensures
                b == Self::of_type(school_id@, user_type)(*u),
            { u.school_id.is(Table::Schools, &school_id) && u.user_type == user_type };
        select(users, keep, Ghost(Self::of_type(school_id@, user_type)))
    }

    /// Records that a user signed in at `now`.
    pub fn update_last_login(&self, users: &mut Vec<User>, user_id: String, now: Datetime) -> (r:
        Option<User>)
        ensures
            final(users)@ == revise_first(
                old(users)@,
                keyed(Table::Users, user_id@),
                Self::signed_in(now),
            ),
            r == revised_first(old(users)@, keyed(Table::Users, user_id@), Self::signed_in(now)),
            r is Some <==> holds(old(users)@, Table::Users, user_id@),
    {
        let change = |u: &User| -> (n: User)
            ensures
                n == Self::signed_in(now)(*u),
            {
                let mut n = u.clone();
                n.last_login = Some(now);
                n.updated_at = now;
                n
            };
        rewrite_by_id(users, Table::Users, &user_id, change, Ghost(Self::signed_in(now)))
    }

    /// Sets the status of a user.
    pub fn update_status(
        &self,
        users: &mut Vec<User>,
        user_id: String,
        status: UserStatus,
        now: Datetime,
    ) -> (r: Option<User>)
        ensures
            final(users)@ == revise_first(
                old(users)@,
                keyed(Table::Users, user_id@),
                Self::with_status(status, now),
            ),
            r == revised_first(
                old(users)@,
                keyed(Table::Users, user_id@),
                Self::with_status(status, now),
            ),
            r is Some <==> holds(old(users)@, Table::Users, user_id@),
    {
        let change = |u: &User| -> (n: User)
            ensures
                n == Self::with_status(status, now)(*u),
            {
                let mut n = u.clone();
                n.status = status;
                n.updated_at = now;
                n
            };
        rewrite_by_id(users, Table::Users, &user_id, change, Ghost(Self::with_status(status, now)))
    }

    /// A user together with the school that the user belongs to, as far as
    /// the table of schools holds it.
    pub fn get_with_school(&self, users: &Vec<User>, schools: &Vec<School>, user_id: String) -> (r:
        Option<(User, Option<School>)>)
        ensures
            match first_match(users@, keyed(Table::Users, user_id@)) {
                Some(u) => r == Some(
                    (u, first_match(schools@, keyed(u.school_id.table, u.school_id.key@))),
                ),
                None => r is None,
            },
    {
        match find_by_id(users, Table::Users, &user_id) {
            Some(u) => {
                let school = find_by_id(schools, u.school_id.table, &u.school_id.key);
                Some((u, school))
            },
            None => None,
        }
    }
}

} // verus!
