//! What signing in and signing up ask of the tables.

use vstd::prelude::*;
use crate::error::DbResult;
use crate::error::Error;
use crate::models::Student;
use crate::models::User;
use crate::table::any;
use crate::table::find_by_id;
use crate::table::first_match;
use crate::table::holds;
use crate::table::keyed;
use crate::table::lemma_first_index_is_first;
use crate::table::revise_first;
use crate::table::rewrite_by_id;
use crate::values::Datetime;
use crate::values::Table;

verus! {

/// The repository of credentials.
pub struct AuthQ;

impl AuthQ {
    /// The users of one school with one email address.
    pub open spec fn with_email(school_id: Seq<char>, email: Seq<char>) -> spec_fn(User) -> bool {
        |u: User|
            u.school_id.names(Table::Schools, school_id) && u.email is Some && u.email.unwrap()@
                == email
    }

    /// The users of one school with one phone number.
    pub open spec fn with_phone(school_id: Seq<char>, phone: Seq<char>) -> spec_fn(User) -> bool {
        |u: User|
            u.school_id.names(Table::Schools, school_id) && u.phone_number is Some
                && u.phone_number.unwrap()@ == phone
    }

    /// The students of one school with one admission number.
    pub open spec fn numbered(school_id: Seq<char>, admission_number: Seq<char>) -> spec_fn(
        Student,
    ) -> bool {
        |s: Student|
            s.school_id.names(Table::Schools, school_id) && s.admission_number@
                == admission_number
    }

    /// A user with another password hash, as of `now`.
    pub open spec fn rehashed(new_hash: String, now: Datetime) -> spec_fn(User) -> User {
        |u: User| User { password_hash: new_hash, updated_at: now, ..u }
    }

    /// A user whose email address is verified, as of `now`.
    pub open spec fn email_verified(now: Datetime) -> spec_fn(User) -> User {
        |u: User| User { email_verified: true, updated_at: now, ..u }
    }

    /// A user whose phone number is verified, as of `now`.
    pub open spec fn phone_verified(now: Datetime) -> spec_fn(User) -> User {
        |u: User| User { phone_verified: true, updated_at: now, ..u }
    }

    /// Whether a user of the school has this email address.
    pub fn email_exists(users: &Vec<User>, school_id: String, email: String) -> (r: bool)
        ensures
            r == exists|i: int|
                0 <= i < users.len() && Self::with_email(school_id@, email@)(#[trigger] users@[i]),
    {
        let keep = |u: &User| -> (b: bool)
            ensures
                b == Self::with_email(school_id@, email@)(*u),
            {
                u.school_id.is(Table::Schools, &school_id) && match &u.email {
                    Some(e) => *e == email,
                    None => false,
                }
            };
        any(users, keep, Ghost(Self::with_email(school_id@, email@)))
    }

    /// Whether a user of the school has this phone number.
    pub fn phone_exists(users: &Vec<User>, school_id: String, phone: String) -> (r: bool)
        ensures
            r == exists|i: int|
                0 <= i < users.len() && Self::with_phone(school_id@, phone@)(#[trigger] users@[i]),
    {
        let keep = |u: &User| -> (b: bool)
            ensures
                b == Self::with_phone(school_id@, phone@)(*u),
            {
                u.school_id.is(Table::Schools, &school_id) && match &u.phone_number {
                    Some(p) => *p == phone,
                    None => false,
                }
            };
        any(users, keep, Ghost(Self::with_phone(school_id@, phone@)))
    }

    /// Whether a student of the school has this admission number.
    pub fn admission_number_exists(
        students: &Vec<Student>,
        school_id: String,
        admission_number: String,
    ) -> (r: bool)
        ensures
            r == exists|i: int|
                0 <= i < students.len() && Self::numbered(school_id@, admission_number@)(
                    #[trigger] students@[i],
                ),
    {
        let keep = |s: &Student| -> (b: bool)
            ensures
                b == Self::numbered(school_id@, admission_number@)(*s),
            { s.school_id.is(Table::Schools, &school_id) && s.admission_number == admission_number
            };
        any(students, keep, Ghost(Self::numbered(school_id@, admission_number@)))
    }

    /// The password hash of a user, to compare a password against.
    pub fn get_password_hash(users: &Vec<User>, user_id: String) -> (r: Option<String>)
        ensures
            r == match first_match(users@, keyed(Table::Users, user_id@)) {
                Some(u) => Some(u.password_hash),
                None => None,
            },
    {
        match find_by_id(users, Table::Users, &user_id) {
            Some(u) => Some(u.password_hash),
            None => None,
        }
    }

    /// Gives a user another password hash. Where there is no such user,
    /// nothing changes.
    pub fn update_password(users: &mut Vec<User>, user_id: String, new_hash: String, now: Datetime)
        -> (r: DbResult<()>)
        ensures
            final(users)@ == revise_first(
                old(users)@,
                keyed(Table::Users, user_id@),
                Self::rehashed(new_hash, now),
            ),
            match r {
                Ok(_) => holds(old(users)@, Table::Users, user_id@),
                Err(e) => !holds(old(users)@, Table::Users, user_id@) && e == Error::NotFound(
                    user_id,
                ) && final(users)@ == old(users)@,
            },
    {
        let ghost apply = Self::rehashed(new_hash, now);
        let change = |u: &User| -> (n: User)
            ensures
                n == apply(*u),
            {
                let mut n = u.clone();
                n.password_hash = new_hash.clone();
                n.updated_at = now;
                n
            };
        match rewrite_by_id(users, Table::Users, &user_id, change, Ghost(apply)) {
            Some(_) => Ok(()),
            None => {
                proof {
                    lemma_first_index_is_first(
                        old(users)@,
                        keyed::<User>(Table::Users, user_id@),
                    );
                }
                Err(Error::NotFound(user_id))
            },
        }
    }

    /// Records that the email address of a user is verified. Where there
    /// is no such user, nothing changes.
    pub fn verify_email(users: &mut Vec<User>, user_id: String, now: Datetime) -> (r: DbResult<()>)
        ensures
            final(users)@ == revise_first(
                old(users)@,
                keyed(Table::Users, user_id@),
                Self::email_verified(now),
            ),
            match r {
                Ok(_) => holds(old(users)@, Table::Users, user_id@),
                Err(e) => !holds(old(users)@, Table::Users, user_id@) && e == Error::NotFound(
                    user_id,
                ) && final(users)@ == old(users)@,
            },
    {
        let change = |u: &User| -> (n: User)
            ensures
                n == Self::email_verified(now)(*u),
            {
                let mut n = u.clone();
                n.email_verified = true;
                n.updated_at = now;
                n
            };
        match rewrite_by_id(users, Table::Users, &user_id, change, Ghost(Self::email_verified(now))) {
            Some(_) => Ok(()),
            None => {
                proof {
                    lemma_first_index_is_first(
                        old(users)@,
                        keyed::<User>(Table::Users, user_id@),
                    );
                }
                Err(Error::NotFound(user_id))
            },
        }
    }

    /// Records that the phone number of a user is verified. Where there is
    /// no such user, nothing changes.
    pub fn verify_phone(users: &mut Vec<User>, user_id: String, now: Datetime) -> (r: DbResult<()>)
        ensures
            final(users)@ == revise_first(
                old(users)@,
                keyed(Table::Users, user_id@),
                Self::phone_verified(now),
            ),
            match r {
                Ok(_) => holds(old(users)@, Table::Users, user_id@),
                Err(e) => !holds(old(users)@, Table::Users, user_id@) && e == Error::NotFound(
                    user_id,
                ) && final(users)@ == old(users)@,
            },
    {
        let change = |u: &User| -> (n: User)
            ensures
                n == Self::phone_verified(now)(*u),
            {
                let mut n = u.clone();
                n.phone_verified = true;
                n.updated_at = now;
                n
            };
        match rewrite_by_id(users, Table::Users, &user_id, change, Ghost(Self::phone_verified(now))) {
            Some(_) => Ok(()),
            None => {
                proof {
                    lemma_first_index_is_first(
                        old(users)@,
                        keyed::<User>(Table::Users, user_id@),
                    );
                }
                Err(Error::NotFound(user_id))
            },
        }
    }
}

} // verus!
