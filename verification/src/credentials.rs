//! The credential bundle: the secrets that the server needs to run.
//!
//! A bundle is atomic. It is complete when none of its fields is empty, and
//! only complete bundles are stored or handed to the server.

use vstd::prelude::*;
use vstd::string::*;

verus! {

/// The four secrets that the user supplies at first-run setup.
#[derive(Debug)]
pub struct ApiKeys {
    /// Connection string of the data store.
    pub database_url: String,
    /// Key of the third-party API.
    pub openai_api_key: String,
    /// OAuth client id.
    pub auth_google_id: String,
    /// OAuth client secret.
    pub auth_google_secret: String,
}

/// The complete bundle: the user's four secrets and the session-signing
/// secret that is generated when they are saved.
#[derive(Debug)]
pub struct Credentials {
    /// Connection string of the data store.
    pub database_url: String,
    /// Key of the third-party API.
    pub openai_api_key: String,
    /// OAuth client id.
    pub auth_google_id: String,
    /// OAuth client secret.
    pub auth_google_secret: String,
    /// Session-signing secret.
    pub auth_secret: String,
}

/// The user's four secrets as character sequences.
pub struct KeysModel {
    pub database_url: Seq<char>,
    pub openai_api_key: Seq<char>,
    pub auth_google_id: Seq<char>,
    pub auth_google_secret: Seq<char>,
}

/// A bundle as character sequences.
pub struct Bundle {
    pub database_url: Seq<char>,
    pub openai_api_key: Seq<char>,
    pub auth_google_id: Seq<char>,
    pub auth_google_secret: Seq<char>,
    pub auth_secret: Seq<char>,
}

impl KeysModel {
    /// None of the four secrets is empty.
    pub open spec fn complete(self) -> bool {
        &&& self.database_url.len() > 0
        &&& self.openai_api_key.len() > 0
        &&& self.auth_google_id.len() > 0
        &&& self.auth_google_secret.len() > 0
    }

    /// The bundle made of these secrets and a session secret.
    pub open spec fn with_secret(self, auth_secret: Seq<char>) -> Bundle {
        Bundle {
            database_url: self.database_url,
            openai_api_key: self.openai_api_key,
            auth_google_id: self.auth_google_id,
            auth_google_secret: self.auth_google_secret,
            auth_secret,
        }
    }
}

impl Bundle {
    /// None of the five fields is empty.
    pub open spec fn complete(self) -> bool {
        &&& self.database_url.len() > 0
        &&& self.openai_api_key.len() > 0
        &&& self.auth_google_id.len() > 0
        &&& self.auth_google_secret.len() > 0
        &&& self.auth_secret.len() > 0
    }

    /// The four fields that the user supplied.
    pub open spec fn keys(self) -> KeysModel {
        KeysModel {
            database_url: self.database_url,
            openai_api_key: self.openai_api_key,
            auth_google_id: self.auth_google_id,
            auth_google_secret: self.auth_google_secret,
        }
    }

    /// The variables that mirror the bundle in a process environment, each
    /// under the name by which the server looks it up.
    pub open spec fn environment(self) -> Seq<(Seq<char>, Seq<char>)> {
        seq![
            ("DATABASE_URL"@, self.database_url),
            ("OPENAI_API_KEY"@, self.openai_api_key),
            ("AUTH_GOOGLE_ID"@, self.auth_google_id),
            ("AUTH_GOOGLE_SECRET"@, self.auth_google_secret),
            ("AUTH_SECRET"@, self.auth_secret),
        ]
    }
}

impl View for ApiKeys {
    type V = KeysModel;

    open spec fn view(&self) -> KeysModel {
        KeysModel {
            database_url: self.database_url@,
            openai_api_key: self.openai_api_key@,
            auth_google_id: self.auth_google_id@,
            auth_google_secret: self.auth_google_secret@,
        }
    }
}

impl View for Credentials {
    type V = Bundle;

    open spec fn view(&self) -> Bundle {
        Bundle {
            database_url: self.database_url@,
            openai_api_key: self.openai_api_key@,
            auth_google_id: self.auth_google_id@,
            auth_google_secret: self.auth_google_secret@,
            auth_secret: self.auth_secret@,
        }
    }
}

/// One variable of a process environment: its name and its value.
pub fn variable(name: &str, value: &str) -> (pair: (String, String))
    ensures
        pair.0@ == name@,
        pair.1@ == value@,
{
    (String::from_str(name), String::from_str(value))
}

impl ApiKeys {
    /// Tells whether none of the four secrets is empty.
    pub fn is_complete(&self) -> (complete: bool)
        ensures
            complete == self@.complete(),
    {
        !self.database_url.as_str().is_empty() && !self.openai_api_key.as_str().is_empty()
            && !self.auth_google_id.as_str().is_empty()
            && !self.auth_google_secret.as_str().is_empty()
    }

    /// Joins the four secrets with a session secret into a bundle.
    pub fn with_secret(&self, auth_secret: String) -> (bundle: Credentials)
        ensures
            bundle@ == self@.with_secret(auth_secret@),
    {
        Credentials {
            database_url: self.database_url.clone(),
            openai_api_key: self.openai_api_key.clone(),
            auth_google_id: self.auth_google_id.clone(),
            auth_google_secret: self.auth_google_secret.clone(),
            auth_secret,
        }
    }
}

impl Credentials {
    /// Tells whether none of the five fields is empty.
    pub fn is_complete(&self) -> (complete: bool)
        ensures
            complete == self@.complete(),
    {
        !self.database_url.as_str().is_empty() && !self.openai_api_key.as_str().is_empty()
            && !self.auth_google_id.as_str().is_empty()
            && !self.auth_google_secret.as_str().is_empty() && !self.auth_secret.as_str().is_empty()
    }

    /// Tells whether two bundles have the same contents.
    pub fn same_as(&self, other: &Credentials) -> (same: bool)
        ensures
            same == (self@ == other@),
    {
        self.database_url == other.database_url && self.openai_api_key == other.openai_api_key
            && self.auth_google_id == other.auth_google_id && self.auth_google_secret
            == other.auth_google_secret && self.auth_secret == other.auth_secret
    }

    /// The variables that mirror the bundle in a process environment. The
    /// server inherits or receives them when it is spawned.
    pub fn environment(&self) -> (vars: Vec<(String, String)>)
        ensures
            vars.deep_view() == self@.environment(),
    {
        let mut vars: Vec<(String, String)> = Vec::new();
        vars.push(variable("DATABASE_URL", self.database_url.as_str()));
        vars.push(variable("OPENAI_API_KEY", self.openai_api_key.as_str()));
        vars.push(variable("AUTH_GOOGLE_ID", self.auth_google_id.as_str()));
        vars.push(variable("AUTH_GOOGLE_SECRET", self.auth_google_secret.as_str()));
        vars.push(variable("AUTH_SECRET", self.auth_secret.as_str()));
        assert(vars.deep_view() =~= self@.environment());
        vars
    }
}

} // verus!
