//! The token authenticator and the registration, lookup and search
//! operations, built on the record store, the connection pool and the
//! password verifier. Every operation takes a lease from the pool and
//! gives it back before returning; a login walks the token rotation
//! inside a transaction on its lease.

use vstd::prelude::*;

use chrono::Datelike;

use crate::dates::spec_is_adult;
use crate::dates::spec_parse_date;
use crate::dates::Date;
use crate::dates::is_adult;
use crate::dates::parse_date;
use crate::errors::ServiceError;
use crate::password::hash_password;
use crate::password::spec_password_hash;
use crate::password::spec_verify;
use crate::pool::Pool;
use crate::store::find_user;
use crate::store::has_id;
use crate::store::index_of_id;
use crate::store::opt_prefix;
use crate::store::spec_search;
use crate::store::table_wf;
use crate::store::Table;
use crate::user::CreateUserRequest;
use crate::user::SearchResult;
use crate::user::UpdatedTokenResult;
use crate::user::User;

verus! {

/// Relies on `uuid::Uuid::new_v4` and its `Display` form: a fresh
/// random v4 UUID rendered as the hyphenated, 36-character string.
/// Nothing more is assumed of the value — it is random. Like an
/// allocation, the call aborts if the operating system's random
/// source fails; no input avoids that.
#[verifier::external_body]
fn fresh_uuid_string() -> (s: String)
    ensures
        s@.len() == 36,
{
    uuid::Uuid::new_v4().to_string()
}

/// Relies on `chrono::Local::now` and `chrono::Datelike`'s `year`,
/// `month` and `day`: the month is in `1..=12` and the day in `1..=31`,
/// as their documentation states, and the three parts come from one
/// real calendar date, so the day never exceeds that month's length.
/// The value depends on the clock, so nothing else is assumed.
#[verifier::external_body]
fn current_date_parts() -> (p: (i32, u32, u32))
    ensures
        1 <= p.1 <= 12,
        1 <= p.2 <= 31,
        p.2 as int <= crate::dates::spec_days_in_month(p.0 as int, p.1 as int),
{
    let now = chrono::Local::now();
    (now.year(), now.month(), now.day())
}

/// Reads the clock and fits it into a calendar date; `None` only if
/// the clock reports a date outside the representable range.
pub fn current_date() -> (r: Option<Date>)
    ensures
        r matches Some(d) ==> d.wf(),
{
    let (y, m, d) = current_date_parts();
    if y < 0 || y > 9999 {
        None
    } else {
        Date::new(y as u32, m, d)
    }
}

/// The directory service: one record table behind one bounded
/// connection pool.
pub struct Service {
    pool: Pool,
    table: Table,
}

impl Service {
    /// The rows of the `users` table.
    pub closed spec fn spec_table(&self) -> Seq<User> {
        self.table@
    }

    /// How many pooled connections exist.
    pub closed spec fn spec_pool_size(&self) -> nat {
        self.pool.spec_size()
    }

    /// How many pooled connections are free.
    pub closed spec fn spec_pool_idle(&self) -> nat {
        self.pool.spec_idle()
    }

    /// The service invariant: one row per id, and no more idle
    /// connections than the pool was built with.
    pub open spec fn wf(&self) -> bool {
        &&& table_wf(self.spec_table())
        &&& self.spec_pool_idle() <= self.spec_pool_size()
    }

    /// A freshly provisioned service: an empty table, every
    /// connection idle.
    pub fn new(pool_size: usize) -> (s: Service)
        ensures
            s.wf(),
            s.spec_table() =~= Seq::<User>::empty(),
            s.spec_pool_size() == pool_size,
            s.spec_pool_idle() == pool_size,
    {
        Service { pool: Pool::new(pool_size), table: Table::new() }
    }

    /// Registration with every outside input pinned: the current date
    /// and the generated id are arguments, so the contract can say
    /// exactly which outcome each input earns. The age gate is decided
    /// before any storage access; then a lease is taken and the row
    /// inserted, `Conflict` exactly when the id is already present.
    pub fn register_dated(&mut self, req: CreateUserRequest, today: Date, id: String) -> (r:
        Result<String, ServiceError>)
        requires
            old(self).wf(),
            today.wf(),
        ensures
            final(self).wf(),
            final(self).spec_pool_size() == old(self).spec_pool_size(),
            final(self).spec_pool_idle() == old(self).spec_pool_idle(),
            ({
                let before = old(self).spec_table();
                let after = final(self).spec_table();
                let idle = old(self).spec_pool_idle();
                let adult = spec_parse_date(req.birthdate@) matches Some(b)
                    && spec_is_adult(b, today);
                match r {
                    Err(ServiceError::InvalidInput) => !adult && after == before,
                    Err(ServiceError::Unavailable) => adult && idle == 0 && after == before,
                    Err(ServiceError::Conflict) => adult && idle > 0 && has_id(before, id@)
                        && after == before,
                    Err(ServiceError::Internal) => false,
                    Ok(rid) => {
                        &&& adult
                        &&& idle > 0
                        &&& !has_id(before, id@)
                        &&& rid@ == id@
                        &&& after.len() == before.len() + 1
                        &&& after.drop_last() == before
                        &&& after.last().id == id
                        &&& after.last().first_name == req.first_name
                        &&& after.last().second_name == req.second_name
                        &&& after.last().biography == req.biography
                        &&& after.last().birthdate == req.birthdate
                        &&& after.last().city == req.city
                        &&& after.last().password_hash@ == spec_password_hash(req.password@)
                        &&& after.last().token@ == Seq::<char>::empty()
                    },
                }
            }),
    {
        let adult = match parse_date(req.birthdate.as_str()) {
            Some(birth) => is_adult(&birth, &today),
            None => false,
        };
        if !adult {
            return Err(ServiceError::InvalidInput);
        }
        let lease = match self.pool.acquire() {
            Err(e) => {
                return Err(e);
            },
            Ok(lease) => lease,
        };
        let user = User {
            id,
            password_hash: hash_password(req.password.as_str()),
            token: String::new(),
            first_name: req.first_name,
            second_name: req.second_name,
            biography: req.biography,
            birthdate: req.birthdate,
            city: req.city,
        };
        let outcome = user.insert_to_db(&mut self.table);
        self.pool.release(lease);
        outcome
    }

    /// Registration as the request handler calls it: the id comes from
    /// the UUID generator and the date from the clock, so the contract
    /// states what holds of every outcome. `Internal` only if the
    /// clock reports an unrepresentable date, before anything else is
    /// touched; `Conflict` only if the freshly generated id was
    /// already present; a birthdate that is no calendar date can never
    /// register.
    pub fn register(&mut self, req: CreateUserRequest) -> (r: Result<String, ServiceError>)
        requires
            old(self).wf(),
        ensures
            final(self).wf(),
            final(self).spec_pool_size() == old(self).spec_pool_size(),
            final(self).spec_pool_idle() == old(self).spec_pool_idle(),
            spec_parse_date(req.birthdate@) is None ==> !(r is Ok),
            ({
                let before = old(self).spec_table();
                let after = final(self).spec_table();
                match r {
                    Err(ServiceError::Unavailable) => old(self).spec_pool_idle() == 0 && after
                        == before,
                    Err(ServiceError::Conflict) => (exists|gid: Seq<char>|
                        gid.len() == 36 && has_id(before, gid)) && after == before,
                    Err(ServiceError::InvalidInput) => after == before,
                    Err(ServiceError::Internal) => after == before,
                    Ok(rid) => {
                        &&& rid@.len() == 36
                        &&& !has_id(before, rid@)
                        &&& after.len() == before.len() + 1
                        &&& after.drop_last() == before
                        &&& after.last().id@ == rid@
                        &&& after.last().first_name == req.first_name
                        &&& after.last().second_name == req.second_name
                        &&& after.last().biography == req.biography
                        &&& after.last().birthdate == req.birthdate
                        &&& after.last().city == req.city
                        &&& after.last().password_hash@ == spec_password_hash(req.password@)
                        &&& after.last().token@ == Seq::<char>::empty()
                    },
                }
            }),
    {
        let today = match current_date() {
            Some(d) => d,
            None => {
                return Err(ServiceError::Internal);
            },
        };
        let id = fresh_uuid_string();
        let ghost gid = id@;
        let r = self.register_dated(req, today, id);
        proof {
            if r matches Err(e) && e == ServiceError::Conflict {
                assert(gid.len() == 36 && has_id(old(self).spec_table(), gid));
            }
        }
        r
    }

    /// One login attempt: take a lease, open the transaction, rotate
    /// the token speculatively, verify the password, and commit
    /// exactly on success — every failure path rolls back, so a failed
    /// attempt leaves the table unchanged. `Unavailable` exactly when
    /// the pool is exhausted; the lease is back in the pool either
    /// way.
    pub fn login(&mut self, user_id: &String, password: &str) -> (r: Result<
        UpdatedTokenResult,
        ServiceError,
    >)
        requires
            old(self).wf(),
        ensures
            final(self).wf(),
            final(self).spec_pool_size() == old(self).spec_pool_size(),
            final(self).spec_pool_idle() == old(self).spec_pool_idle(),
            ({
                let before = old(self).spec_table();
                let after = final(self).spec_table();
                match r {
                    Err(e) => e == ServiceError::Unavailable && old(self).spec_pool_idle() == 0
                        && after == before,
                    Ok(outcome) => old(self).spec_pool_idle() > 0 && match outcome {
                        UpdatedTokenResult::UserNotFound => !has_id(before, user_id@) && after
                            == before,
                        UpdatedTokenResult::WrongPassword => (find_user(before, user_id@) matches
                            Some(u) && !spec_verify(password@, u.password_hash@)) && after
                            == before,
                        UpdatedTokenResult::LoggedIn(u) => {
                            &&& find_user(before, user_id@) matches Some(stored)
                            &&& spec_verify(password@, stored.password_hash@)
                            &&& u == stored.spec_with_token(u.token)
                            &&& u.token@.len() == 36
                            &&& after == before.update(index_of_id(before, user_id@), u)
                        },
                    },
                }
            }),
    {
        let mut lease = match self.pool.acquire() {
            Err(e) => {
                return Err(e);
            },
            Ok(lease) => lease,
        };
        lease.begin_transaction();
        let token = fresh_uuid_string();
        let outcome = User::update_token(user_id, password, token, &mut self.table);
        match &outcome {
            UpdatedTokenResult::LoggedIn(_) => lease.commit(),
            _ => lease.rollback(),
        }
        self.pool.release(lease);
        Ok(outcome)
    }

    /// Profile lookup: the row's public fields, never the password
    /// hash or the token; absence is `None`, not an error.
    pub fn get_profile(&mut self, id: &String) -> (r: Result<Option<SearchResult>, ServiceError>)
        requires
            old(self).wf(),
        ensures
            final(self).wf(),
            final(self).spec_pool_size() == old(self).spec_pool_size(),
            final(self).spec_pool_idle() == old(self).spec_pool_idle(),
            final(self).spec_table() == old(self).spec_table(),
            ({
                let before = old(self).spec_table();
                match r {
                    Err(e) => e == ServiceError::Unavailable && old(self).spec_pool_idle() == 0,
                    Ok(p) => old(self).spec_pool_idle() > 0 && p == match find_user(before, id@) {
                        Some(u) => Some(u.spec_profile()),
                        None => None,
                    },
                }
            }),
    {
        let lease = match self.pool.acquire() {
            Err(e) => {
                return Err(e);
            },
            Ok(lease) => lease,
        };
        let found = User::from_id(id, &self.table);
        self.pool.release(lease);
        match found {
            Some(u) => Ok(Some(SearchResult::from(u))),
            None => Ok(None),
        }
    }

    /// Name-prefix search. No prefix at all returns the empty sequence
    /// — never the whole table; both prefixes must match when both are
    /// given.
    pub fn search(&mut self, first_name: Option<&String>, second_name: Option<&String>) -> (r:
        Result<Vec<SearchResult>, ServiceError>)
        requires
            old(self).wf(),
        ensures
            final(self).wf(),
            final(self).spec_pool_size() == old(self).spec_pool_size(),
            final(self).spec_pool_idle() == old(self).spec_pool_idle(),
            final(self).spec_table() == old(self).spec_table(),
            ({
                let before = old(self).spec_table();
                match r {
                    Err(e) => e == ServiceError::Unavailable && old(self).spec_pool_idle() == 0,
                    Ok(v) => old(self).spec_pool_idle() > 0 && v@ == spec_search(
                        before,
                        opt_prefix(first_name),
                        opt_prefix(second_name),
                    ),
                }
            }),
    {
        let lease = match self.pool.acquire() {
            Err(e) => {
                return Err(e);
            },
            Ok(lease) => lease,
        };
        let results = User::search(&self.table, first_name, second_name);
        self.pool.release(lease);
        Ok(results)
    }
}

} // verus!
