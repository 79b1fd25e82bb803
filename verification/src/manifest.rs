//! The update manifest: a small JSON document that names the latest
//! firmware version and where to download it.
//!
//! The document is read by `serde_json`; what is asked of it, and what
//! becomes of each answer, is decided here.

use vstd::prelude::*;
use crate::http_status::{is_success, status_ok};
use crate::version::{semver_parsed, Version, VersionView};

verus! {

/// The most bytes that a manifest may have: what one bounded read returns.
pub const MANIFEST_CAPACITY: usize = 256;

/// A JSON value of `serde_json`.
#[verifier::external_type_specification]
#[verifier::external_body]
pub struct ExJsonValue(serde_json::Value);

/// The error that `serde_json` gives for a text that is no JSON document.
#[verifier::external_type_specification]
#[verifier::external_body]
pub struct ExJsonError(serde_json::Error);

/// Why a poll for the manifest failed.
#[derive(Clone, Copy, Debug, PartialEq, Eq, Structural)]
pub enum PollError {
    /// The request could not be made or the response could not be read.
    Transport,
    /// The server answered with a status outside 200 to 299.
    Status(u16),
    /// The response has no body.
    EmptyBody,
    /// The body does not fit in one bounded read.
    Oversized,
    /// The body is no JSON document.
    Malformed,
    /// The document lacks a text member `version` or `link`.
    MissingField,
    /// The member `version` is no semantic version.
    BadVersion,
}

/// The manifest as the document spells it.
#[derive(Debug, PartialEq, Eq)]
pub struct UpdateJson {
    pub version: String,
    pub link: String,
}

/// The manifest: the version on offer and the link to its image.
#[derive(Debug, PartialEq, Eq)]
pub struct Update {
    pub version: Version,
    pub link: String,
}

/// A manifest as plain values.
pub struct UpdateView {
    pub version: VersionView,
    pub link: Seq<char>,
}

impl View for Update {
    type V = UpdateView;

    open spec fn view(&self) -> UpdateView {
        UpdateView { version: self.version@, link: self.link@ }
    }
}

/// What `serde_json::from_slice` makes of a text: the text members of the
/// document, or nothing where the text is no JSON document.
pub uninterp spec fn json_document(text: Seq<u8>) -> Option<Map<Seq<char>, Seq<char>>>;

/// The text members that a JSON value holds: for an object, each member
/// whose value is a string, by its name; for any other value, none.
pub uninterp spec fn json_text_members(value: serde_json::Value) -> Map<Seq<char>, Seq<char>>;

/// The manifest that a version text and a link make.
pub open spec fn update_from(version: Seq<char>, link: Seq<char>) -> Result<UpdateView, PollError> {
    match semver_parsed(version) {
        Some(parsed) => Ok(UpdateView { version: parsed, link }),
        None => Err(PollError::BadVersion),
    }
}

/// The text member `key` of a document's members, if there is one.
pub open spec fn member(members: Map<Seq<char>, Seq<char>>, key: Seq<char>) -> Option<Seq<char>> {
    if members.contains_key(key) {
        Some(members[key])
    } else {
        None
    }
}

/// The manifest that a document holds.
pub open spec fn manifest_in(body: Seq<u8>) -> Result<UpdateView, PollError> {
    match json_document(body) {
        None => Err(PollError::Malformed),
        Some(members) => match (member(members, "version"@), member(members, "link"@)) {
            (Some(version), Some(link)) => update_from(version, link),
            _ => Err(PollError::MissingField),
        },
    }
}

/// What a response with `status` and `body` says: the status is looked at
/// first, then the size of the body, then the document.
pub open spec fn manifest_of(status: u16, body: Seq<u8>) -> Result<UpdateView, PollError> {
    if !is_success(status) {
        Err(PollError::Status(status))
    } else if body.len() == 0 {
        Err(PollError::EmptyBody)
    } else if body.len() > MANIFEST_CAPACITY {
        Err(PollError::Oversized)
    } else {
        manifest_in(body)
    }
}

/// Reads a JSON document with `serde_json::from_slice`.
///
/// Trusted: the outcome is a function of the text alone. It is named
/// `json_document` by the text members of the value that comes back.
#[verifier::external_body]
fn json_parse(text: &[u8]) -> (outcome: Result<serde_json::Value, serde_json::Error>)
    ensures
        match outcome {
            Ok(value) => json_document(text@) == Some(json_text_members(value)),
            Err(_) => json_document(text@) is None,
        },
{
    serde_json::from_slice::<serde_json::Value>(text)
}

/// Looks a member up with `serde_json::Value::get` and hands its text out.
///
/// Trusted: a text comes back exactly for the members of an object that are
/// strings, and it is the member's own.
#[verifier::external_body]
fn json_text_member(value: &serde_json::Value, key: &str) -> (text: Option<String>)
    ensures
        match text {
            Some(found) => json_text_members(*value).contains_key(key@) && json_text_members(
                *value,
            )[key@] == found@,
            None => !json_text_members(*value).contains_key(key@),
        },
{
    match value.get(key) {
        Some(serde_json::Value::String(found)) => Some(found.clone()),
        _ => None,
    }
}

impl Update {
    /// The manifest that a decoded document stands for. The version text
    /// must be a semantic version; `Update::from_json` tests that first.
    pub fn new(json: UpdateJson) -> (update: Update)
        requires
            semver_parsed(json.version@) is Some,
        ensures
            update_from(json.version@, json.link@) == Ok::<UpdateView, PollError>(update@),
    {
        match Version::parse(json.version.as_str()) {
            Some(version) => Update { version, link: json.link },
            None => unreached(),
        }
    }

    /// The manifest that a decoded document stands for, or the failed poll
    /// that a version text makes which is no semantic version.
    pub fn from_json(json: UpdateJson) -> (made: Result<Update, PollError>)
        ensures
            match made {
                Ok(update) => update_from(json.version@, json.link@) == Ok::<UpdateView, PollError>(
                    update@,
                ),
                Err(e) => update_from(json.version@, json.link@) == Err::<UpdateView, PollError>(e),
            },
    {
        match Version::parse(json.version.as_str()) {
            Some(_) => Ok(Update::new(json)),
            None => Err(PollError::BadVersion),
        }
    }

    /// A copy of this manifest.
    pub fn duplicate(&self) -> (copy: Update)
        ensures
            copy@ == self@,
    {
        Update { version: self.version.duplicate(), link: self.link.clone() }
    }
}

impl UpdateJson {
    /// The manifest as it is spelt, from the two text members that were
    /// looked up in the document.
    pub fn from_members(version: Option<String>, link: Option<String>) -> (made: Result<
        UpdateJson,
        PollError,
    >)
        ensures
            match made {
                Ok(json) => version matches Some(v) && link matches Some(l) && json.version@ == v@
                    && json.link@ == l@,
                Err(e) => e == PollError::MissingField && (version is None || link is None),
            },
    {
        match version {
            None => Err(PollError::MissingField),
            Some(version) => match link {
                None => Err(PollError::MissingField),
                Some(link) => Ok(UpdateJson { version, link }),
            },
        }
    }
}

/// Reads the two text members of a manifest document.
pub fn decode_manifest(body: &[u8]) -> (outcome: Result<UpdateJson, PollError>)
    ensures
        match outcome {
            Ok(json) => {
                &&& json_document(body@) matches Some(members)
                &&& member(members, "version"@) == Some(json.version@)
                &&& member(members, "link"@) == Some(json.link@)
            },
            Err(e) => match json_document(body@) {
                None => e == PollError::Malformed,
                Some(members) => {
                    &&& e == PollError::MissingField
                    &&& member(members, "version"@) is None || member(members, "link"@) is None
                },
            },
        },
{
    match json_parse(body) {
        Err(_) => Err(PollError::Malformed),
        Ok(value) => {
            let version = json_text_member(&value, "version");
            let link = json_text_member(&value, "link");
            UpdateJson::from_members(version, link)
        },
    }
}

/// Judges the response to a poll for the manifest.
///
/// A status outside 200 to 299, an empty body, a body that is longer than
/// one bounded read, a body that is no manifest document: each is a failed
/// poll, told apart by the error.
pub fn check_update(status: u16, body: &[u8]) -> (outcome: Result<Update, PollError>)
    ensures
        match outcome {
            Ok(update) => manifest_of(status, body@) == Ok::<UpdateView, PollError>(update@),
            Err(e) => manifest_of(status, body@) == Err::<UpdateView, PollError>(e),
        },
{
    if !status_ok(status) {
        return Err(PollError::Status(status));
    }
    if body.len() == 0 {
        return Err(PollError::EmptyBody);
    }
    if body.len() > MANIFEST_CAPACITY {
        return Err(PollError::Oversized);
    }
    match decode_manifest(body) {
        Ok(json) => Update::from_json(json),
        Err(e) => Err(e),
    }
}

/// A response whose status is outside 200 to 299 is a failed poll with
/// that status, whatever its body holds.
pub proof fn lemma_bad_status_fails(status: u16, body: Seq<u8>)
    requires
        !is_success(status),
    ensures
        manifest_of(status, body) == Err::<UpdateView, PollError>(PollError::Status(status)),
{
}

/// A successful response without a body, or with more than one bounded
/// read holds, is a failed poll.
pub proof fn lemma_body_size_is_checked(status: u16, body: Seq<u8>)
    requires
        is_success(status),
    ensures
        body.len() == 0 ==> manifest_of(status, body) == Err::<UpdateView, PollError>(
            PollError::EmptyBody,
        ),
        body.len() > MANIFEST_CAPACITY ==> manifest_of(status, body) == Err::<
            UpdateView,
            PollError,
        >(PollError::Oversized),
{
}

} // verus!
