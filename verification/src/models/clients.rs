//! Clients of the shop.
use vstd::prelude::*;
use vstd::string::StringExecFns;

verus! {

/// A client as the shop stores it; only the storage layer builds one.
#[derive(Debug)]
pub struct Client {
    id: u64,
    first_name: String,
    last_name: String,
    street: Option<String>,
    city: Option<String>,
    phone1: String,
    phone2: Option<String>,
    created_at: String,
    updated_at: String,
}

/// A client to insert.
#[derive(Debug)]
pub struct ClientInsert {
    pub first_name: String,
    pub last_name: String,
    pub street: Option<String>,
    pub city: Option<String>,
    pub phone1: String,
    pub phone2: Option<String>,
}

/// A client as submitted by the client form.
#[derive(Debug)]
pub struct ClientForm {
    pub first_name: String,
    pub last_name: String,
    pub street: Option<String>,
    pub city: Option<String>,
    pub phone1: String,
    pub phone2: Option<String>,
}

impl From<ClientForm> for ClientInsert {
    fn from(value: ClientForm) -> (r: Self) {
        ClientInsert {
            first_name: value.first_name,
            last_name: value.last_name,
            street: value.street,
            city: value.city,
            phone1: value.phone1,
            phone2: value.phone2,
        }
    }
}

impl vstd::std_specs::convert::FromSpecImpl<ClientForm> for ClientInsert {
    open spec fn obeys_from_spec() -> bool {
        true
    }

    open spec fn from_spec(value: ClientForm) -> ClientInsert {
        ClientInsert {
            first_name: value.first_name,
            last_name: value.last_name,
            street: value.street,
            city: value.city,
            phone1: value.phone1,
            phone2: value.phone2,
        }
    }
}

/// A client as shown to users.
#[derive(Clone)]
pub struct ClientView {
    pub id: u64,
    pub first_name: String,
    pub last_name: String,
    pub street: Option<String>,
    pub city: Option<String>,
    pub phone1: String,
    pub phone2: Option<String>,
    pub created_at: String,
    pub updated_at: String,
}

impl ClientView {
    /// The full name: first name, a space, last name.
    pub fn name(&self) -> (r: String)
        ensures
            r@ == self.first_name@ + " "@ + self.last_name@,
    {
        self.first_name.clone().concat(" ").concat(self.last_name.as_str())
    }
}

/// The fields of a client that the client search shows.
#[derive(Debug)]
pub struct ClientViewFuzzySearch {
    pub id: u64,
    pub first_name: String,
    pub last_name: String,
    pub city: Option<String>,
}

impl From<ClientView> for ClientViewFuzzySearch {
    fn from(value: ClientView) -> (r: Self) {
        ClientViewFuzzySearch {
            id: value.id,
            first_name: value.first_name,
            last_name: value.last_name,
            city: value.city,
        }
    }
}

impl vstd::std_specs::convert::FromSpecImpl<ClientView> for ClientViewFuzzySearch {
    open spec fn obeys_from_spec() -> bool {
        true
    }

    open spec fn from_spec(value: ClientView) -> ClientViewFuzzySearch {
        ClientViewFuzzySearch {
            id: value.id,
            first_name: value.first_name,
            last_name: value.last_name,
            city: value.city,
        }
    }
}

} // verus!
