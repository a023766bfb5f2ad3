//! The daemon's status as a JSON document: finding it among the frames that
//! arrive, and keeping it up to date by patches.
//!
//! The document is a value of `serde_json`, and patches are applied by
//! `json-patch`.  This module never looks inside a document itself; what it
//! assumes of the two crates is written on the declarations that call them.

use vstd::prelude::*;

verus! {

/// A JSON document of `serde_json`, carried through unread.
#[verifier::external_type_specification]
#[verifier::external_body]
pub struct ExValue(serde_json::Value);

/// Error type of `serde_json`, carried through unread.
#[verifier::external_type_specification]
#[verifier::external_body]
pub struct ExJsonError(serde_json::Error);

/// A list of patch operations of `json-patch`, carried through unread.
#[verifier::external_type_specification]
#[verifier::external_body]
pub struct ExPatch(json_patch::Patch);

/// One patch operation of `json-patch`; a patch gives access to its
/// operations, so the type has to be known.  Carried through unread.
#[verifier::external_type_specification]
#[verifier::external_body]
pub struct ExPatchOperation(json_patch::PatchOperation);

/// Error type of `json-patch`, carried through unread.
#[verifier::external_type_specification]
#[verifier::external_body]
pub struct ExPatchError(json_patch::PatchError);

/// What a document holds: the text that `serde_json` writes for it.
pub uninterp spec fn json_text(value: serde_json::Value) -> Seq<char>;

/// What a patch holds: the text that `serde_json` writes for its operations.
pub uninterp spec fn patch_text(patch: json_patch::Patch) -> Seq<char>;

/// The document that `serde_json::from_str` reads from a text, or `None`
/// where the text is no JSON.
pub uninterp spec fn parsed_json(text: Seq<char>) -> Option<Seq<char>>;

/// True when a document is an object: its text begins with a brace.
pub open spec fn json_is_object(document: Seq<char>) -> bool {
    document.len() > 0 && document[0] == '{'
}

/// What `Value::get` with a string key finds in a document.
pub uninterp spec fn json_member(document: Seq<char>, key: Seq<char>) -> Option<Seq<char>>;

/// What `Value::as_u64` makes of a document.
pub uninterp spec fn json_u64(document: Seq<char>) -> Option<u64>;

/// The document that `json_patch::patch_unsafe` makes of a document and a
/// list of operations, or `None` where an operation fails.
pub uninterp spec fn patched_json(document: Seq<char>, operations: Seq<char>) -> Option<Seq<char>>;

/// Calls `serde_json::from_str` for a `Value`.
///
/// Assumed: whether the text is read, and the document read, depend on the
/// text alone.
#[verifier::external_body]
fn parse_json(text: &str) -> (parsed: Result<serde_json::Value, serde_json::Error>)
    ensures
        match parsed {
            Ok(value) => parsed_json(text@) == Some(json_text(value)),
            Err(_) => parsed_json(text@) is None,
        },
{
    serde_json::from_str::<serde_json::Value>(text)
}

/// Calls `Value::is_object`.
///
/// Assumed: a document is an object exactly where the text written for it
/// begins with a brace.
#[verifier::external_body]
fn value_is_object(value: &serde_json::Value) -> (object: bool)
    ensures
        object == json_is_object(json_text(*value)),
{
    value.is_object()
}

/// Calls `Value::get` with a string key.
///
/// Assumed: what is found depends on the document and the key alone.
#[verifier::external_body]
fn value_get<'a>(value: &'a serde_json::Value, key: &str) -> (member: Option<&'a serde_json::Value>)
    ensures
        match member {
            Some(found) => json_member(json_text(*value), key@) == Some(json_text(*found)),
            None => json_member(json_text(*value), key@) is None,
        },
{
    value.get(key)
}

/// Calls `Value::as_u64`.
#[verifier::external_body]
fn value_as_u64(value: &serde_json::Value) -> (number: Option<u64>)
    ensures
        number == json_u64(json_text(*value)),
{
    value.as_u64()
}

/// Calls `Value::clone`.
///
/// Assumed: the copy holds what the document holds.
#[verifier::external_body]
fn value_clone(value: &serde_json::Value) -> (copy: serde_json::Value)
    ensures
        json_text(copy) == json_text(*value),
{
    value.clone()
}

/// Calls `json_patch::patch_unsafe`, which applies the operations in order
/// and stops at the first that fails.
///
/// Assumed: whether the patch applies, and the document it makes, depend on
/// the document and the operations alone.  Nothing is assumed of the document
/// after a patch that fails: it may be left half changed.
#[verifier::external_body]
fn patch_value(document: &mut serde_json::Value, patch: &json_patch::Patch) -> (patched: Result<
    (),
    json_patch::PatchError,
>)
    ensures
        match patched {
            Ok(_) => patched_json(json_text(*old(document)), patch_text(*patch)) == Some(
                json_text(*final(document)),
            ),
            Err(_) => patched_json(json_text(*old(document)), patch_text(*patch)) is None,
        },
{
    json_patch::patch_unsafe(document, patch)
}

/// Why a frame cannot be used.
#[derive(Debug, Clone, Copy, PartialEq, Eq, Structural)]
pub enum FrameError {
    /// The frame is no JSON.
    Malformed,
    /// The frame is JSON, but no object.
    NotAnObject,
    /// The frame has no `id`.
    MissingId,
    /// The frame's `id` is no unsigned number.
    InvalidId,
    /// The answer to the request has no `data`.
    MissingData,
    /// The answer's `data` has no `Status`.
    MissingStatus,
    /// A patch could not be applied to the status.
    PatchFailed,
}

/// What a frame means while the answer to the status request numbered
/// `request_id` is awaited: the status it carries; nothing, where the frame
/// answers another request or is a notification that came early; or an
/// error, where it is not shaped as an answer at all.
pub open spec fn status_of_frame(frame: Seq<char>, request_id: u64) -> Result<
    Option<Seq<char>>,
    FrameError,
> {
    match parsed_json(frame) {
        None => Err(FrameError::Malformed),
        Some(document) => if !json_is_object(document) {
            Err(FrameError::NotAnObject)
        } else {
            match json_member(document, "id"@) {
                None => Err(FrameError::MissingId),
                Some(id) => match json_u64(id) {
                    None => Err(FrameError::InvalidId),
                    Some(number) => if number != request_id {
                        Ok(None)
                    } else {
                        match json_member(document, "data"@) {
                            None => Err(FrameError::MissingData),
                            Some(data) => match json_member(data, "Status"@) {
                                None => Err(FrameError::MissingStatus),
                                Some(status) => Ok(Some(status)),
                            },
                        }
                    },
                },
            }
        },
    }
}

/// The daemon's status as the daemon sent it, kept to apply patches to.
pub struct RemoteStatus {
    raw: serde_json::Value,
}

impl View for RemoteStatus {
    type V = Seq<char>;

    closed spec fn view(&self) -> Seq<char> {
        json_text(self.raw)
    }
}

impl RemoteStatus {
    /// The document itself.
    pub fn raw(&self) -> (raw: &serde_json::Value)
        ensures
            json_text(*raw) == self@,
    {
        &self.raw
    }

    /// Applies the operations of `patch`, in order.  Where one of them
    /// fails the status stays as it was: the operations work on a copy of
    /// the document, which takes the document's place only when all of them
    /// have applied.
    pub fn apply_patch(&mut self, patch: &json_patch::Patch) -> (applied: Result<(), FrameError>)
        ensures
            match patched_json(old(self)@, patch_text(*patch)) {
                Some(document) => applied is Ok && final(self)@ == document,
                None => applied == Err::<(), FrameError>(FrameError::PatchFailed) && final(self)@
                    == old(self)@,
            },
    {
        let mut copy = value_clone(&self.raw);
        match patch_value(&mut copy, patch) {
            Ok(_) => {
                self.raw = copy;
                Ok(())
            },
            Err(_) => Err(FrameError::PatchFailed),
        }
    }
}

/// Looks in `frame` for the answer to the status request numbered
/// `request_id`.
pub fn match_status_response(frame: &str, request_id: u64) -> (found: Result<
    Option<RemoteStatus>,
    FrameError,
>)
    ensures
        match status_of_frame(frame@, request_id) {
            Err(error) => found matches Err(e) && e == error,
            Ok(None) => found matches Ok(None),
            Ok(Some(status)) => found matches Ok(Some(remote)) && remote@ == status,
        },
{
    let document = match parse_json(frame) {
        Ok(document) => document,
        Err(_) => {
            return Err(FrameError::Malformed);
        },
    };
    if !value_is_object(&document) {
        return Err(FrameError::NotAnObject);
    }
    let id = match value_get(&document, "id") {
        Some(id) => id,
        None => {
            return Err(FrameError::MissingId);
        },
    };
    let number = match value_as_u64(id) {
        Some(number) => number,
        None => {
            return Err(FrameError::InvalidId);
        },
    };
    if number != request_id {
        return Ok(None);
    }
    let data = match value_get(&document, "data") {
        Some(data) => data,
        None => {
            return Err(FrameError::MissingData);
        },
    };
    match value_get(data, "Status") {
        Some(status) => Ok(Some(RemoteStatus { raw: value_clone(status) })),
        None => Err(FrameError::MissingStatus),
    }
}

} // verus!
