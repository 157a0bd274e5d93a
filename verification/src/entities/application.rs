//! The application entity.

use vstd::prelude::*;

verus! {

/// Spec-level picture of an application.
pub struct ApplicationV {
    pub name: Seq<char>,
    pub website: Option<Seq<char>>,
    pub vapid_key: Option<Seq<char>>,
    pub client_id: Seq<char>,
    pub client_secret: Seq<char>,
}

/// An application that interfaces with the REST API to access accounts
/// or post statuses.
#[derive(Debug, Clone, PartialEq)]
pub struct Application {
    name: String,
    website: Option<String>,
    vapid_key: Option<String>,
    client_id: String,
    client_secret: String,
}

impl View for Application {
    type V = ApplicationV;

    closed spec fn view(&self) -> ApplicationV {
        ApplicationV {
            name: self.name@,
            website: self.website.deep_view(),
            vapid_key: self.vapid_key.deep_view(),
            client_id: self.client_id@,
            client_secret: self.client_secret@,
        }
    }
}

impl Application {
    /// Build an application record from its parts.
    pub fn new(
        name: String,
        website: Option<String>,
        vapid_key: Option<String>,
        client_id: String,
        client_secret: String,
    ) -> (r: Application)
        ensures
            r@.name == name@,
            r@.website == website.deep_view(),
            r@.vapid_key == vapid_key.deep_view(),
            r@.client_id == client_id@,
            r@.client_secret == client_secret@,
    {
        Application { name, website, vapid_key, client_id, client_secret }
    }

    /// The name of the application.
    pub fn name(&self) -> (r: &str)
        ensures
            r@ == self@.name,
    {
        self.name.as_str()
    }

    /// The website associated with the application.
    pub fn website(&self) -> (r: Option<&String>)
        ensures
            r.deep_view() == self@.website,
    {
        self.website.as_ref()
    }

    /// Used for the push streaming API.
    pub fn vapid_key(&self) -> (r: Option<&String>)
        ensures
            r.deep_view() == self@.vapid_key,
    {
        self.vapid_key.as_ref()
    }

    /// Client ID key, used for obtaining OAuth tokens.
    pub fn client_id(&self) -> (r: &str)
        ensures
            r@ == self@.client_id,
    {
        self.client_id.as_str()
    }

    /// Client secret key, used for obtaining OAuth tokens.
    pub fn client_secret(&self) -> (r: &str)
        ensures
            r@ == self@.client_secret,
    {
        self.client_secret.as_str()
    }
}

} // verus!
