//! The user entity. The password field holds a PHC hash and stays private:
//! it is only read back through its getter, as the sign-in flow needs.

use vstd::prelude::*;

verus! {

#[derive(Clone, Debug)]
pub struct User {
    id: i32,
    username: String,
    email: String,
    password: String,
    tz_continent: String,
    tz_city: String,
    created_at: String,
    updated_at: String,
}

impl User {
    pub closed spec fn spec_id(self) -> i32 {
        self.id
    }

    pub closed spec fn spec_username(self) -> String {
        self.username
    }

    pub closed spec fn spec_email(self) -> String {
        self.email
    }

    pub closed spec fn spec_password(self) -> String {
        self.password
    }

    pub closed spec fn spec_tz_continent(self) -> String {
        self.tz_continent
    }

    pub closed spec fn spec_tz_city(self) -> String {
        self.tz_city
    }

    pub closed spec fn spec_created_at(self) -> String {
        self.created_at
    }

    pub closed spec fn spec_updated_at(self) -> String {
        self.updated_at
    }

    pub fn new(
        id: i32,
        username: String,
        email: String,
        password: String,
        tz_continent: String,
        tz_city: String,
        created_at: String,
        updated_at: String,
    ) -> (r: Self)
        ensures
            r.spec_id() == id,
            r.spec_username() == username,
            r.spec_email() == email,
            r.spec_password() == password,
            r.spec_tz_continent() == tz_continent,
            r.spec_tz_city() == tz_city,
            r.spec_created_at() == created_at,
            r.spec_updated_at() == updated_at,
    {
        User { id, username, email, password, tz_continent, tz_city, created_at, updated_at }
    }

    pub fn id(&self) -> (r: i32)
        ensures
            r == self.spec_id(),
    {
        self.id
    }

    pub fn username(&self) -> (r: &str)
        ensures
            r@ == self.spec_username()@,
    {
        self.username.as_str()
    }

    pub fn email(&self) -> (r: &str)
        ensures
            r@ == self.spec_email()@,
    {
        self.email.as_str()
    }

    pub fn password(&self) -> (r: &str)
        ensures
            r@ == self.spec_password()@,
    {
        self.password.as_str()
    }

    pub fn tz_continent(&self) -> (r: &str)
        ensures
            r@ == self.spec_tz_continent()@,
    {
        self.tz_continent.as_str()
    }

    pub fn tz_city(&self) -> (r: &str)
        ensures
            r@ == self.spec_tz_city()@,
    {
        self.tz_city.as_str()
    }

    pub fn created_at(&self) -> (r: &str)
        ensures
            r@ == self.spec_created_at()@,
    {
        self.created_at.as_str()
    }

    pub fn updated_at(&self) -> (r: &str)
        ensures
            r@ == self.spec_updated_at()@,
    {
        self.updated_at.as_str()
    }
}

} // verus!
