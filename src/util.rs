//! The threshold evaluation of notifications.
use crate::frame::{get_message_text, text_of, Frame};
use crate::json::{
    is_null, is_object, json_view, member, member_of, number_bits, parse_value, parsed, Json,
};
use crate::model::{toggles, Data, ManagedWindow, RootResponse, TilingSize};
use vstd::prelude::*;

verus! {

/// Why a notification gave no decision.
#[derive(Clone, Copy, Debug, PartialEq, Eq, Structural)]
pub enum TilingError {
    /// The text is not JSON.
    Malformed,
    /// The JSON does not have the notification's shape.
    Shape,
}

/// An optional object member: a missing or null member is `None`, a member
/// that is not an object is a shape error.
pub open spec fn object_member_of(j: Json, key: Seq<char>) -> Result<Option<Json>, TilingError> {
    match member_of(j, key) {
        None => Ok(None),
        Some(Json::Null) => Ok(None),
        Some(m) => if m is Object {
            Ok(Some(m))
        } else {
            Err(TilingError::Shape)
        },
    }
}

/// An optional numeric member: a missing or null member is `None`, a member
/// that is not a number is a shape error.
pub open spec fn size_member_of(j: Json, key: Seq<char>) -> Result<Option<TilingSize>, TilingError> {
    match member_of(j, key) {
        None => Ok(None),
        Some(Json::Null) => Ok(None),
        Some(Json::Number(bits)) => Ok(Some(TilingSize { bits })),
        Some(_) => Err(TilingError::Shape),
    }
}

/// The notification document a JSON value holds: an object whose `data`,
/// `data.managedWindow` and `data.managedWindow.tilingSize` are each absent,
/// null, or of the expected kind.
pub open spec fn document_of(j: Json) -> Result<RootResponse, TilingError> {
    if !(j is Object) {
        Err(TilingError::Shape)
    } else {
        match object_member_of(j, "data"@) {
            Err(e) => Err(e),
            Ok(None) => Ok(RootResponse { data: None }),
            Ok(Some(d)) => match object_member_of(d, "managedWindow"@) {
                Err(e) => Err(e),
                Ok(None) => Ok(RootResponse { data: Some(Data { managed_window: None }) }),
                Ok(Some(w)) => match size_member_of(w, "tilingSize"@) {
                    Err(e) => Err(e),
                    Ok(tiling_size) => Ok(
                        RootResponse {
                            data: Some(Data { managed_window: Some(ManagedWindow { tiling_size }) }),
                        },
                    ),
                },
            },
        }
    }
}

/// The document a notification text holds, or why it holds none.
pub open spec fn document_of_text(text: Seq<char>) -> Result<RootResponse, TilingError> {
    match parsed(text) {
        None => Err(TilingError::Malformed),
        Some(j) => document_of(j),
    }
}

/// The evaluation of a notification text: the toggle decision of its
/// document, or why it has none.
pub open spec fn evaluation(text: Seq<char>) -> Result<bool, TilingError> {
    match document_of_text(text) {
        Ok(doc) => Ok(toggles(doc)),
        Err(e) => Err(e),
    }
}

/// Whether a frame asks for a toggle: it is a text frame whose notification
/// evaluates to `true`.
pub open spec fn frame_asks_toggle(frame: Frame) -> bool {
    match text_of(frame) {
        Some(t) => evaluation(t) == Ok::<bool, TilingError>(true),
        None => false,
    }
}

fn object_member<'a>(v: &'a serde_json::Value, key: &str) -> (r: Result<Option<&'a serde_json::Value>, TilingError>)
    ensures
        match (r, object_member_of(json_view(*v), key@)) {
            (Ok(None), Ok(None)) => true,
            (Ok(Some(m)), Ok(Some(j))) => json_view(*m) == j,
            (Err(e1), Err(e2)) => e1 == e2,
            _ => false,
        },
{
    match member(v, key) {
        None => Ok(None),
        Some(m) => {
            if is_null(m) {
                Ok(None)
            } else if is_object(m) {
                Ok(Some(m))
            } else {
                Err(TilingError::Shape)
            }
        },
    }
}

fn size_member(v: &serde_json::Value, key: &str) -> (r: Result<Option<TilingSize>, TilingError>)
    ensures
        r == size_member_of(json_view(*v), key@),
{
    match member(v, key) {
        None => Ok(None),
        Some(m) => {
            if is_null(m) {
                Ok(None)
            } else {
                match number_bits(m) {
                    Some(bits) => Ok(Some(TilingSize { bits })),
                    None => Err(TilingError::Shape),
                }
            }
        },
    }
}

/// Parses a notification into its document.
pub fn read_document(json_text: &str) -> (r: Result<RootResponse, TilingError>)
    ensures
        r == document_of_text(json_text@),
{
    let root = match parse_value(json_text) {
        Ok(v) => v,
        Err(_) => return Err(TilingError::Malformed),
    };
    if !is_object(&root) {
        return Err(TilingError::Shape);
    }
    let data = match object_member(&root, "data") {
        Ok(None) => return Ok(RootResponse { data: None }),
        Ok(Some(d)) => d,
        Err(e) => return Err(e),
    };
    let window = match object_member(data, "managedWindow") {
        Ok(None) => return Ok(RootResponse { data: Some(Data { managed_window: None }) }),
        Ok(Some(w)) => w,
        Err(e) => return Err(e),
    };
    match size_member(window, "tilingSize") {
        Ok(tiling_size) => Ok(
            RootResponse {
                data: Some(Data { managed_window: Some(ManagedWindow { tiling_size }) }),
            },
        ),
        Err(e) => Err(e),
    }
}

/// Evaluates one notification: `Ok` with the toggle decision of the document
/// it holds, or the reason it holds none.
pub fn is_tiling_toggleable(json_text: &str) -> (r: Result<bool, TilingError>)
    ensures
        r == evaluation(json_text@),
{
    match read_document(json_text) {
        Ok(doc) => Ok(doc.toggle_decision()),
        Err(e) => Err(e),
    }
}

/// Whether a frame asks for a toggle.
pub fn frame_toggles(frame: Frame) -> (r: bool)
    ensures
        r == frame_asks_toggle(frame),
{
    match get_message_text(frame) {
        Some(text) => match is_tiling_toggleable(text.as_str()) {
            Ok(decision) => decision,
            Err(_) => false,
        },
        None => false,
    }
}

/// A JSON document that lacks `data`, `managedWindow` or `tilingSize` never
/// asks for a toggle: its evaluation is `Ok(false)` or an error, never a
/// decision to toggle.
pub proof fn lemma_missing_level_gives_no_decision(text: Seq<char>)
    requires
        parsed(text) is Some,
        ({
            let data = member_of(parsed(text).unwrap(), "data"@);
            data is None || member_of(data.unwrap(), "managedWindow"@) is None || member_of(
                member_of(data.unwrap(), "managedWindow"@).unwrap(),
                "tilingSize"@,
            ) is None
        }),
    ensures
        evaluation(text) != Ok::<bool, TilingError>(true),
{
}

} // verus!
