//! The record types of the directory: the stored user row, the public
//! profile handed outward (which never carries the password hash or the
//! token), and the outcome of a login attempt.

use vstd::prelude::*;

verus! {

/// One row of the `users` table.
pub struct User {
    pub id: String,
    pub first_name: String,
    pub second_name: String,
    pub biography: String,
    pub birthdate: String,
    pub city: String,
    pub password_hash: String,
    pub token: String,
}

/// The public view of a user: every stored field except the password
/// hash and the token, which never leave the service.
pub struct SearchResult {
    pub id: String,
    pub first_name: String,
    pub second_name: String,
    pub biography: String,
    pub birthdate: String,
    pub city: String,
}

impl User {
    /// The public profile of this row.
    pub open spec fn spec_profile(self) -> SearchResult {
        SearchResult {
            id: self.id,
            first_name: self.first_name,
            second_name: self.second_name,
            biography: self.biography,
            birthdate: self.birthdate,
            city: self.city,
        }
    }

    /// The same row with the token replaced.
    pub open spec fn spec_with_token(self, token: String) -> User {
        User {
            id: self.id,
            first_name: self.first_name,
            second_name: self.second_name,
            biography: self.biography,
            birthdate: self.birthdate,
            city: self.city,
            password_hash: self.password_hash,
            token,
        }
    }
}

impl Clone for User {
    fn clone(&self) -> (r: Self)
        ensures
            r == *self,
    {
        User {
            id: self.id.clone(),
            first_name: self.first_name.clone(),
            second_name: self.second_name.clone(),
            biography: self.biography.clone(),
            birthdate: self.birthdate.clone(),
            city: self.city.clone(),
            password_hash: self.password_hash.clone(),
            token: self.token.clone(),
        }
    }
}

impl Clone for SearchResult {
    fn clone(&self) -> (r: Self)
        ensures
            r == *self,
    {
        SearchResult {
            id: self.id.clone(),
            first_name: self.first_name.clone(),
            second_name: self.second_name.clone(),
            biography: self.biography.clone(),
            birthdate: self.birthdate.clone(),
            city: self.city.clone(),
        }
    }
}

impl From<User> for SearchResult {
    fn from(user: User) -> (r: SearchResult) {
        SearchResult {
            id: user.id,
            first_name: user.first_name,
            second_name: user.second_name,
            biography: user.biography,
            birthdate: user.birthdate,
            city: user.city,
        }
    }
}

impl vstd::std_specs::convert::FromSpecImpl<User> for SearchResult {
    open spec fn obeys_from_spec() -> bool {
        true
    }

    open spec fn from_spec(user: User) -> SearchResult {
        user.spec_profile()
    }
}

/// The outcome of one login attempt, as decided inside the token
/// rotation transaction: the user is absent, the password is wrong, or
/// the login succeeded and the row now carries the returned token.
pub enum UpdatedTokenResult {
    UserNotFound,
    WrongPassword,
    LoggedIn(User),
}

/// The fields a registration request carries; the id, the password
/// hash and the empty initial token are supplied by the service.
pub struct CreateUserRequest {
    pub first_name: String,
    pub second_name: String,
    pub biography: String,
    pub birthdate: String,
    pub city: String,
    pub password: String,
}

/// A declared sex, kept for rows imported from older data sets.
pub enum Sex {
    Male,
    Female,
}

impl Sex {
    /// The wire word for this value.
    pub fn to_string(&self) -> (s: String)
        ensures
            *self is Male ==> s@ == "male"@,
            *self is Female ==> s@ == "female"@,
    {
        match self {
            Sex::Male => "male".to_owned(),
            Sex::Female => "female".to_owned(),
        }
    }

    /// Reads the wire word back; no other word ever reaches this, so
    /// none is accepted.
    pub fn from(value: String) -> (s: Sex)
        requires
            value@ == "male"@ || value@ == "female"@,
        ensures
            s is Male <==> value@ == "male"@,
    {
        proof {
            reveal_strlit("male");
            reveal_strlit("female");
        }
        if value == "male".to_owned() {
            Sex::Male
        } else {
            Sex::Female
        }
    }
}

} // verus!
