//! The stored form of a credential bundle: one JSON object with the five
//! fields as string members, in the order of the bundle's fields and without
//! any white space.
//!
//! The object's frame is written here. How a text becomes a JSON string, and
//! how a JSON document is taken apart, is `serde_json`'s business. That the
//! one undoes the other is not taken on trust: a record is read back before
//! it is stored.

use crate::credentials::{Bundle, Credentials};
use crate::failure::{ErrorKind, Failure};
use vstd::prelude::*;
use vstd::string::*;

verus! {

/// `serde_json::Error`: why a text could not be written or read. Opaque
/// here; `json_error_text` reads it.
#[verifier::external_type_specification]
#[verifier::external_body]
pub struct ExJsonError(serde_json::Error);

/// The JSON string that `serde_json::to_string` writes for a text: the
/// text between double quotes, with the characters escaped that JSON wants
/// escaped.
pub uninterp spec fn json_string_literal(text: Seq<char>) -> Seq<char>;

/// The members that `serde_json::from_str` finds in a JSON object all of
/// whose values are strings: each member's name and value, decoded, in the
/// order of the names. `None` for any other text.
pub uninterp spec fn json_string_members(text: Seq<char>) -> Option<Seq<(Seq<char>, Seq<char>)>>;

/// Calls `serde_json::to_string` on a text. The call succeeds for every
/// text: a text is written as a string whatever it holds, and the writer is
/// a byte vector, which takes every write. What comes back is the JSON
/// string named `json_string_literal`.
#[verifier::external_body]
fn quote(text: &str) -> (literal: Result<String, serde_json::Error>)
    ensures
        literal is Ok,
        literal matches Ok(written) ==> written@ == json_string_literal(text@),
{
    serde_json::to_string(text)
}

/// Calls `serde_json::from_str` for a map from strings to strings and hands
/// out the map's entries in its own order. The call succeeds exactly on the
/// texts for which `json_string_members` is defined, and the entries are
/// the members it names.
#[verifier::external_body]
fn parse_members(text: &str) -> (members: Result<Vec<(String, String)>, serde_json::Error>)
    ensures
        match members {
            Ok(found) => json_string_members(text@) == Some(found.deep_view()),
            Err(_) => json_string_members(text@) is None,
        },
{
    let map: std::collections::BTreeMap<String, String> = serde_json::from_str(text)?;
    Ok(map.into_iter().collect())
}

/// The text that `serde_json::Error` displays. Nothing is claimed of it.
#[verifier::external_body]
fn json_error_text(error: &serde_json::Error) -> (text: String) {
    error.to_string()
}

/// The record made of five JSON strings, one per field of the bundle.
pub open spec fn record_frame(
    database_url: Seq<char>,
    openai_api_key: Seq<char>,
    auth_google_id: Seq<char>,
    auth_google_secret: Seq<char>,
    auth_secret: Seq<char>,
) -> Seq<char> {
    "{\"database_url\":"@ + database_url + ",\"openai_api_key\":"@ + openai_api_key
        + ",\"auth_google_id\":"@ + auth_google_id + ",\"auth_google_secret\":"@
        + auth_google_secret + ",\"auth_secret\":"@ + auth_secret + "}"@
}

/// The stored form of a bundle.
pub open spec fn record_text(bundle: Bundle) -> Seq<char> {
    record_frame(
        json_string_literal(bundle.database_url),
        json_string_literal(bundle.openai_api_key),
        json_string_literal(bundle.auth_google_id),
        json_string_literal(bundle.auth_google_secret),
        json_string_literal(bundle.auth_secret),
    )
}

/// The value of the first member of the given name, if there is one.
pub open spec fn member(members: Seq<(Seq<char>, Seq<char>)>, name: Seq<char>) -> Option<
    Seq<char>,
>
    decreases members.len(),
{
    if members.len() == 0 {
        None
    } else if members[0].0 == name {
        Some(members[0].1)
    } else {
        member(members.skip(1), name)
    }
}

/// The bundle that a record's members make up: all five fields must be
/// there. Members of other names are passed over.
pub open spec fn bundle_of(members: Seq<(Seq<char>, Seq<char>)>) -> Option<Bundle> {
    if member(members, "database_url"@) is Some && member(members, "openai_api_key"@) is Some
        && member(members, "auth_google_id"@) is Some && member(members, "auth_google_secret"@)
        is Some && member(members, "auth_secret"@) is Some {
        Some(
            Bundle {
                database_url: member(members, "database_url"@).unwrap(),
                openai_api_key: member(members, "openai_api_key"@).unwrap(),
                auth_google_id: member(members, "auth_google_id"@).unwrap(),
                auth_google_secret: member(members, "auth_google_secret"@).unwrap(),
                auth_secret: member(members, "auth_secret"@).unwrap(),
            },
        )
    } else {
        None
    }
}

/// The bundle that a stored text holds, if it holds one.
pub open spec fn decoded(text: Seq<char>) -> Option<Bundle> {
    match json_string_members(text) {
        Some(members) => bundle_of(members),
        None => None,
    }
}

/// The stored form of the bundle holds the bundle, and no other.
pub open spec fn reads_back(bundle: Bundle) -> bool {
    decoded(record_text(bundle)) == Some(bundle)
}

/// The text with which a record is withheld that does not read back.
pub open spec fn unreadable_text() -> Seq<char> {
    "the record does not read back as the bundle"@
}

/// Writes the record's frame around five JSON strings.
pub fn frame_record(
    database_url: &str,
    openai_api_key: &str,
    auth_google_id: &str,
    auth_google_secret: &str,
    auth_secret: &str,
) -> (record: String)
    ensures
        record@ == record_frame(
            database_url@,
            openai_api_key@,
            auth_google_id@,
            auth_google_secret@,
            auth_secret@,
        ),
{
    let mut record = String::from_str("{\"database_url\":");
    record.append(database_url);
    record.append(",\"openai_api_key\":");
    record.append(openai_api_key);
    record.append(",\"auth_google_id\":");
    record.append(auth_google_id);
    record.append(",\"auth_google_secret\":");
    record.append(auth_google_secret);
    record.append(",\"auth_secret\":");
    record.append(auth_secret);
    record.append("}");
    record
}

/// The failure that stands for a text which `serde_json` refused.
fn malformed(error: &serde_json::Error) -> (failure: Failure)
    ensures
        failure.kind == ErrorKind::Malformed,
{
    Failure { kind: ErrorKind::Malformed, detail: json_error_text(error) }
}

/// Writes a bundle in its stored form. Every bundle can be written.
pub fn encode(credentials: &Credentials) -> (record: Result<String, Failure>)
    ensures
        record matches Ok(text) && text@ == record_text(credentials@),
{
    let database_url = match quote(credentials.database_url.as_str()) {
        Ok(literal) => literal,
        Err(error) => {
            return Err(malformed(&error));
        },
    };
    let openai_api_key = match quote(credentials.openai_api_key.as_str()) {
        Ok(literal) => literal,
        Err(error) => {
            return Err(malformed(&error));
        },
    };
    let auth_google_id = match quote(credentials.auth_google_id.as_str()) {
        Ok(literal) => literal,
        Err(error) => {
            return Err(malformed(&error));
        },
    };
    let auth_google_secret = match quote(credentials.auth_google_secret.as_str()) {
        Ok(literal) => literal,
        Err(error) => {
            return Err(malformed(&error));
        },
    };
    let auth_secret = match quote(credentials.auth_secret.as_str()) {
        Ok(literal) => literal,
        Err(error) => {
            return Err(malformed(&error));
        },
    };
    Ok(
        frame_record(
            database_url.as_str(),
            openai_api_key.as_str(),
            auth_google_id.as_str(),
            auth_google_secret.as_str(),
            auth_secret.as_str(),
        ),
    )
}

/// Looks a member up by name.
pub fn find_member(members: &Vec<(String, String)>, name: &str) -> (value: Option<String>)
    ensures
        match value {
            Some(text) => member(members.deep_view(), name@) == Some(text@),
            None => member(members.deep_view(), name@) is None,
        },
{
    let wanted = String::from_str(name);
    let ghost all = members.deep_view();
    let mut at: usize = 0;
    assert(all.skip(0) =~= all);
    while at < members.len()
        invariant
            at <= members.len(),
            all == members.deep_view(),
            wanted@ == name@,
            member(all, name@) == member(all.skip(at as int), name@),
        decreases members.len() - at,
    {
        let ghost rest = all.skip(at as int);
        assert(rest[0] == all[at as int]);
        assert(all[at as int] == (members[at as int].0@, members[at as int].1@));
        if members[at].0 == wanted {
            return Some(members[at].1.clone());
        }
        assert(rest.skip(1) =~= all.skip(at + 1));
        at = at + 1;
    }
    assert(all.skip(at as int).len() == 0);
    None
}

/// Puts the bundle together from a record's members.
pub fn bundle_from_members(members: &Vec<(String, String)>) -> (bundle: Option<Credentials>)
    ensures
        match bundle {
            Some(credentials) => bundle_of(members.deep_view()) == Some(credentials@),
            None => bundle_of(members.deep_view()) is None,
        },
{
    let database_url = match find_member(members, "database_url") {
        Some(text) => text,
        None => {
            return None;
        },
    };
    let openai_api_key = match find_member(members, "openai_api_key") {
        Some(text) => text,
        None => {
            return None;
        },
    };
    let auth_google_id = match find_member(members, "auth_google_id") {
        Some(text) => text,
        None => {
            return None;
        },
    };
    let auth_google_secret = match find_member(members, "auth_google_secret") {
        Some(text) => text,
        None => {
            return None;
        },
    };
    let auth_secret = match find_member(members, "auth_secret") {
        Some(text) => text,
        None => {
            return None;
        },
    };
    Some(Credentials { database_url, openai_api_key, auth_google_id, auth_google_secret, auth_secret })
}

/// Reads a bundle from its stored form. The text must be a JSON object
/// whose values are all strings, with the five fields among its members.
pub fn decode(text: &str) -> (bundle: Result<Credentials, Failure>)
    ensures
        match bundle {
            Ok(credentials) => decoded(text@) == Some(credentials@),
            Err(failure) => decoded(text@) is None && failure.kind == ErrorKind::Malformed,
        },
{
    match parse_members(text) {
        Ok(members) => match bundle_from_members(&members) {
            Some(credentials) => Ok(credentials),
            None => Err(
                Failure::new(ErrorKind::Malformed, "the stored record lacks a credential field"),
            ),
        },
        Err(error) => Err(malformed(&error)),
    }
}

/// Writes a bundle in its stored form and reads the text back before it is
/// given out. The text is given out exactly where it holds the bundle it was
/// written for, and no other; where it does not, it is withheld.
pub fn seal(credentials: &Credentials) -> (record: Result<String, Failure>)
    ensures
        record is Ok <==> reads_back(credentials@),
        match record {
            Ok(text) => text@ == record_text(credentials@) && decoded(text@) == Some(credentials@),
            Err(failure) => failure.kind == ErrorKind::Malformed && failure.detail@
                == unreadable_text(),
        },
{
    let text = match encode(credentials) {
        Ok(text) => text,
        Err(failure) => {
            return Err(failure);
        },
    };
    let same = match decode(text.as_str()) {
        Ok(read) => read.same_as(credentials),
        Err(_) => false,
    };
    if same {
        Ok(text)
    } else {
        Err(Failure::new(ErrorKind::Malformed, "the record does not read back as the bundle"))
    }
}

} // verus!
