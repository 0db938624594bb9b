//! The record store and its mathematical model: a `users` table with
//! one row per id, the typed operations against it — insert, fetch by
//! id, prefix search — and the token rotation that a login performs,
//! together with the laws the token lifecycle obeys.

use vstd::prelude::*;

use crate::errors::ServiceError;
use crate::password::spec_verify;
use crate::password::verify_password;
use crate::user::SearchResult;
use crate::user::UpdatedTokenResult;
use crate::user::User;

verus! {

/// The table invariant: ids are never repeated.
pub open spec fn table_wf(tbl: Seq<User>) -> bool {
    forall|i: int, j: int| 0 <= i < j < tbl.len() ==> tbl[i].id@ != tbl[j].id@
}

/// Some row carries `id`.
pub open spec fn has_id(tbl: Seq<User>, id: Seq<char>) -> bool {
    exists|i: int| 0 <= i < tbl.len() && tbl[i].id@ == id
}

/// The index of the row carrying `id`; meaningful when `has_id` holds
/// of a well-formed table.
pub open spec fn index_of_id(tbl: Seq<User>, id: Seq<char>) -> int {
    choose|i: int| 0 <= i < tbl.len() && tbl[i].id@ == id
}

/// The row carrying `id`, if any.
pub open spec fn find_user(tbl: Seq<User>, id: Seq<char>) -> Option<User> {
    if has_id(tbl, id) {
        Some(tbl[index_of_id(tbl, id)])
    } else {
        None
    }
}

/// In a well-formed table, any row carrying `id` stands at
/// `index_of_id`.
pub proof fn lemma_index_unique(tbl: Seq<User>, id: Seq<char>, i: int)
    requires
        table_wf(tbl),
        0 <= i < tbl.len(),
        tbl[i].id@ == id,
    ensures
        has_id(tbl, id),
        index_of_id(tbl, id) == i,
{
    assert(has_id(tbl, id));
    let j = index_of_id(tbl, id);
    if i < j {
        assert(tbl[i].id@ != tbl[j].id@);
    } else if j < i {
        assert(tbl[j].id@ != tbl[i].id@);
    }
}

/// Replacing a row with one carrying the same id keeps the table
/// well-formed.
proof fn lemma_wf_update_same_id(tbl: Seq<User>, i: int, u: User)
    requires
        table_wf(tbl),
        0 <= i < tbl.len(),
        tbl[i].id@ == u.id@,
    ensures
        table_wf(tbl.update(i, u)),
{
    let tbl2 = tbl.update(i, u);
    assert forall|p: int, q: int| 0 <= p < q < tbl2.len() implies tbl2[p].id@ != tbl2[q].id@ by {
        assert(tbl[p].id@ != tbl[q].id@);
    }
}

/// What one token rotation does to the table: nothing for an unknown
/// id or a wrong password; for a correct password, exactly the row of
/// `id` gets the fresh token, and the updated row is returned.
pub open spec fn spec_update_token(
    tbl: Seq<User>,
    id: Seq<char>,
    password: Seq<char>,
    token: String,
) -> (Seq<User>, UpdatedTokenResult) {
    if !has_id(tbl, id) {
        (tbl, UpdatedTokenResult::UserNotFound)
    } else {
        let i = index_of_id(tbl, id);
        let u = tbl[i];
        if spec_verify(password, u.password_hash@) {
            let rotated = u.spec_with_token(token);
            (tbl.update(i, rotated), UpdatedTokenResult::LoggedIn(rotated))
        } else {
            (tbl, UpdatedTokenResult::WrongPassword)
        }
    }
}

/// `prefix` is an initial segment of `s`.
pub open spec fn is_prefix_of(prefix: Seq<char>, s: Seq<char>) -> bool {
    prefix.len() <= s.len() && forall|k: int| 0 <= k < prefix.len() ==> s[k] == prefix[k]
}

/// The optional prefix a search argument denotes.
pub open spec fn opt_prefix(o: Option<&String>) -> Option<Seq<char>> {
    match o {
        Some(p) => Some(p@),
        None => None,
    }
}

/// A row matches a query when each given prefix anchors at the start
/// of its field; an absent prefix constrains nothing.
pub open spec fn spec_matches(
    u: User,
    first: Option<Seq<char>>,
    second: Option<Seq<char>>,
) -> bool {
    &&& (first matches Some(p) ==> is_prefix_of(p, u.first_name@))
    &&& (second matches Some(p) ==> is_prefix_of(p, u.second_name@))
}

/// The profiles a search returns: nothing at all when no prefix is
/// given — the defensive default — and otherwise the profiles of the
/// matching rows, in table order.
pub open spec fn spec_search(
    tbl: Seq<User>,
    first: Option<Seq<char>>,
    second: Option<Seq<char>>,
) -> Seq<SearchResult>
    decreases tbl.len(),
{
    if first is None && second is None {
        Seq::empty()
    } else if tbl.len() == 0 {
        Seq::empty()
    } else {
        let rest = spec_search(tbl.drop_last(), first, second);
        if spec_matches(tbl.last(), first, second) {
            rest.push(tbl.last().spec_profile())
        } else {
            rest
        }
    }
}

/// Decides whether `prefix` starts `s`.
pub fn starts_with_prefix(prefix: &str, s: &str) -> (r: bool)
    ensures
        r == is_prefix_of(prefix@, s@),
{
    let pl = prefix.unicode_len();
    let sl = s.unicode_len();
    if pl > sl {
        return false;
    }
    for k in 0..pl
        invariant
            pl <= sl,
            pl == prefix@.len(),
            sl == s@.len(),
            forall|j: int| 0 <= j < k ==> s@[j] == prefix@[j],
    {
        if s.get_char(k) != prefix.get_char(k) {
            return false;
        }
    }
    true
}

/// The `users` table itself; rows are reached only through the typed
/// operations below, which keep one row per id.
pub struct Table {
    users: Vec<User>,
}

impl View for Table {
    type V = Seq<User>;

    closed spec fn view(&self) -> Seq<User> {
        self.users@
    }
}

impl Table {
    /// The table invariant, as seen by callers.
    pub open spec fn wf(&self) -> bool {
        table_wf(self@)
    }

    /// An empty table, as bootstrap provisioning leaves it.
    pub fn new() -> (t: Table)
        ensures
            t@ =~= Seq::<User>::empty(),
            t.wf(),
    {
        Table { users: Vec::new() }
    }

    /// How many rows the table holds.
    pub fn len(&self) -> (n: usize)
        ensures
            n == self@.len(),
    {
        self.users.len()
    }

    fn position_of(&self, id: &String) -> (r: Option<usize>)
        ensures
            match r {
                Some(i) => i < self@.len() && self@[i as int].id@ == id@,
                None => !has_id(self@, id@),
            },
    {
        let n = self.users.len();
        for i in 0..n
            invariant
                n == self@.len(),
                forall|j: int| 0 <= j < i ==> self@[j].id@ != id@,
        {
            if self.users[i].id == *id {
                return Some(i);
            }
        }
        None
    }
}

impl User {
    /// Inserts this row, failing with `Conflict` — and changing
    /// nothing — exactly when the id is already taken. The stored
    /// token column is written as empty whatever the given record
    /// holds: a token exists only once a login has issued one.
    pub fn insert_to_db(self, table: &mut Table) -> (r: Result<String, ServiceError>)
        requires
            old(table).wf(),
        ensures
            final(table).wf(),
            match r {
                Ok(id) => id@ == self.id@ && !has_id(old(table)@, self.id@) && final(table)@
                    == old(table)@.push(self.spec_with_token(final(table)@.last().token))
                    && final(table)@.last().token@ == Seq::<char>::empty(),
                Err(e) => e == ServiceError::Conflict && has_id(old(table)@, self.id@)
                    && final(table)@ == old(table)@,
            },
    {
        match table.position_of(&self.id) {
            Some(_) => Err(ServiceError::Conflict),
            None => {
                let id = self.id.clone();
                let stored = User {
                    id: self.id,
                    first_name: self.first_name,
                    second_name: self.second_name,
                    biography: self.biography,
                    birthdate: self.birthdate,
                    city: self.city,
                    password_hash: self.password_hash,
                    token: String::new(),
                };
                proof {
                    assert(stored == self.spec_with_token(stored.token));
                    assert forall|i: int, j: int|
                        0 <= i < j < old(table)@.push(stored).len() implies old(table)@.push(
                        stored,
                    )[i].id@ != old(table)@.push(stored)[j].id@ by {
                        if j < old(table)@.len() {
                            assert(old(table)@[i].id@ != old(table)@[j].id@);
                        } else {
                            assert(!(0 <= i < old(table)@.len() && old(table)@[i].id@
                                == self.id@));
                        }
                    }
                }
                table.users.push(stored);
                Ok(id)
            },
        }
    }

    /// Fetches the row of `id`; absence is a plain `None`, never an
    /// error.
    pub fn from_id(id: &String, table: &Table) -> (r: Option<User>)
        requires
            table.wf(),
        ensures
            r == find_user(table@, id@),
    {
        match table.position_of(id) {
            Some(i) => {
                proof {
                    lemma_index_unique(table@, id@, i as int);
                }
                Some(table.users[i].clone())
            },
            None => None,
        }
    }

    /// The token rotation at the heart of a login attempt: swap in the
    /// fresh `token`, check the password against the stored digest,
    /// and keep the swap only on success. A failed attempt leaves the
    /// table exactly as it was — the speculative swap is discarded —
    /// and an unknown id changes nothing at all.
    pub fn update_token(
        user_id: &String,
        password: &str,
        token: String,
        table: &mut Table,
    ) -> (r: UpdatedTokenResult)
        requires
            old(table).wf(),
        ensures
            final(table).wf(),
            (final(table)@, r) == spec_update_token(old(table)@, user_id@, password@, token),
    {
        match table.position_of(user_id) {
            None => UpdatedTokenResult::UserNotFound,
            Some(i) => {
                proof {
                    lemma_index_unique(table@, user_id@, i as int);
                }
                let stored = &table.users[i];
                if verify_password(password, stored.password_hash.as_str()) {
                    let rotated = User {
                        id: stored.id.clone(),
                        first_name: stored.first_name.clone(),
                        second_name: stored.second_name.clone(),
                        biography: stored.biography.clone(),
                        birthdate: stored.birthdate.clone(),
                        city: stored.city.clone(),
                        password_hash: stored.password_hash.clone(),
                        token,
                    };
                    proof {
                        assert(rotated == old(table)@[i as int].spec_with_token(token));
                        lemma_wf_update_same_id(old(table)@, i as int, rotated);
                    }
                    let returned = rotated.clone();
                    table.users[i] = rotated;
                    UpdatedTokenResult::LoggedIn(returned)
                } else {
                    UpdatedTokenResult::WrongPassword
                }
            },
        }
    }

    /// Prefix search over names. With no prefix given at all, the
    /// result is empty — never the whole table; with both given, both
    /// must match.
    pub fn search(
        table: &Table,
        first_name: Option<&String>,
        second_name: Option<&String>,
    ) -> (r: Vec<SearchResult>)
        ensures
            r@ == spec_search(table@, opt_prefix(first_name), opt_prefix(second_name)),
    {
        let mut result: Vec<SearchResult> = Vec::new();
        if first_name.is_none() && second_name.is_none() {
            return result;
        }
        let n = table.users.len();
        for i in 0..n
            invariant
                n == table@.len(),
                first_name is Some || second_name is Some,
                result@ == spec_search(
                    table@.take(i as int),
                    opt_prefix(first_name),
                    opt_prefix(second_name),
                ),
        {
            let u = &table.users[i];
            let first_ok = match first_name {
                Some(p) => starts_with_prefix(p.as_str(), u.first_name.as_str()),
                None => true,
            };
            let second_ok = match second_name {
                Some(p) => starts_with_prefix(p.as_str(), u.second_name.as_str()),
                None => true,
            };
            proof {
                assert(table@.take(i + 1).drop_last() =~= table@.take(i as int));
                assert(table@.take(i + 1).last() == table@[i as int]);
            }
            if first_ok && second_ok {
                result.push(
                    SearchResult {
                        id: u.id.clone(),
                        first_name: u.first_name.clone(),
                        second_name: u.second_name.clone(),
                        biography: u.biography.clone(),
                        birthdate: u.birthdate.clone(),
                        city: u.city.clone(),
                    },
                );
                assert(result@.last() == table@[i as int].spec_profile());
                assert(result@.drop_last() == spec_search(
                    table@.take(i as int),
                    opt_prefix(first_name),
                    opt_prefix(second_name),
                ));
            }
        }
        proof {
            assert(table@.take(n as int) =~= table@);
        }
        result
    }
}

/// Token secrecy on failure: a login with a wrong password reports
/// `WrongPassword` and leaves the table — in particular the stored
/// token — exactly as it was before the attempt.
pub proof fn lemma_token_unchanged_on_wrong_password(
    tbl: Seq<User>,
    id: Seq<char>,
    password: Seq<char>,
    token: String,
)
    requires
        table_wf(tbl),
        find_user(tbl, id) matches Some(u) && !spec_verify(password, u.password_hash@),
    ensures
        spec_update_token(tbl, id, password, token).1 is WrongPassword,
        spec_update_token(tbl, id, password, token).0 == tbl,
        find_user(spec_update_token(tbl, id, password, token).0, id) == find_user(tbl, id),
{
}

/// Token rotation on success: a login with the correct password
/// reports the row carrying the fresh token, a fetch afterwards sees
/// exactly that token, and — whenever the fresh token differs from the
/// stored one, as the generation scheme makes overwhelmingly likely —
/// the stored token has changed.
pub proof fn lemma_token_rotation_on_success(
    tbl: Seq<User>,
    id: Seq<char>,
    password: Seq<char>,
    token: String,
)
    requires
        table_wf(tbl),
        find_user(tbl, id) matches Some(u) && spec_verify(password, u.password_hash@),
    ensures
        ({
            let (tbl2, r) = spec_update_token(tbl, id, password, token);
            let before = find_user(tbl, id)->Some_0;
            &&& r == UpdatedTokenResult::LoggedIn(before.spec_with_token(token))
            &&& table_wf(tbl2)
            &&& find_user(tbl2, id) == Some(before.spec_with_token(token))
            &&& token@ != before.token@ ==> find_user(tbl2, id)->Some_0.token@ != before.token@
        }),
{
    let i = index_of_id(tbl, id);
    let before = tbl[i];
    let rotated = before.spec_with_token(token);
    let tbl2 = tbl.update(i, rotated);
    lemma_wf_update_same_id(tbl, i, rotated);
    lemma_index_unique(tbl2, id, i);
}

/// Unknown user: a login under an id no row carries reports
/// `UserNotFound`, and no row is created or altered.
pub proof fn lemma_unknown_user_login(
    tbl: Seq<User>,
    id: Seq<char>,
    password: Seq<char>,
    token: String,
)
    requires
        !has_id(tbl, id),
    ensures
        spec_update_token(tbl, id, password, token).1 is UserNotFound,
        spec_update_token(tbl, id, password, token).0 == tbl,
{
}

/// Serialized logins: two login attempts for the same user with the
/// correct password, run one after the other as the transaction
/// boundary serializes them, both succeed, each returns the token it
/// swapped in, and the stored token afterwards is the one of the
/// attempt that committed last.
pub proof fn lemma_serialized_logins(
    tbl: Seq<User>,
    id: Seq<char>,
    password: Seq<char>,
    first_token: String,
    second_token: String,
)
    requires
        table_wf(tbl),
        find_user(tbl, id) matches Some(u) && spec_verify(password, u.password_hash@),
    ensures
        ({
            let (tbl1, r1) = spec_update_token(tbl, id, password, first_token);
            let (tbl2, r2) = spec_update_token(tbl1, id, password, second_token);
            let before = find_user(tbl, id)->Some_0;
            &&& r1 == UpdatedTokenResult::LoggedIn(before.spec_with_token(first_token))
            &&& r2 == UpdatedTokenResult::LoggedIn(before.spec_with_token(second_token))
            &&& table_wf(tbl2)
            &&& find_user(tbl2, id) == Some(before.spec_with_token(second_token))
        }),
{
    lemma_token_rotation_on_success(tbl, id, password, first_token);
    let (tbl1, r1) = spec_update_token(tbl, id, password, first_token);
    lemma_token_rotation_on_success(tbl1, id, password, second_token);
    let before = find_user(tbl, id)->Some_0;
    assert(before.spec_with_token(first_token).spec_with_token(second_token)
        == before.spec_with_token(second_token));
}

} // verus!
