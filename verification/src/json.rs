//! Flat JSON objects and their encoding.

use crate::error::TicketError;
use vstd::prelude::*;

verus! {

/// The error of the `serde_json` crate. It is told apart from success and
/// never looked into.
#[verifier::external_type_specification]
#[verifier::external_body]
pub struct ExJsonError(serde_json::Error);

/// The value of a member of a flat JSON object.
#[derive(Debug)]
pub enum JsonValue {
    Null,
    Text(String),
    EmptyList,
}

/// What a [`JsonValue`] holds.
pub enum JsonModel {
    Null,
    Text(Seq<char>),
    EmptyList,
}

impl View for JsonValue {
    type V = JsonModel;

    open spec fn view(&self) -> JsonModel {
        match self {
            JsonValue::Null => JsonModel::Null,
            JsonValue::Text(text) => JsonModel::Text(text@),
            JsonValue::EmptyList => JsonModel::EmptyList,
        }
    }
}

/// A key of a JSON object with its value.
#[derive(Debug)]
pub struct Member {
    pub key: String,
    pub value: JsonValue,
}

impl View for Member {
    type V = (Seq<char>, JsonModel);

    open spec fn view(&self) -> (Seq<char>, JsonModel) {
        (self.key@, self.value@)
    }
}

/// The members of an object, each by its view, in the order given.
pub open spec fn members_model(members: Seq<Member>) -> Seq<(Seq<char>, JsonModel)> {
    Seq::new(members.len(), |i: int| members[i]@)
}

/// The compact JSON text that serde_json writes for the object made by
/// inserting `members` one after the other into an empty object; `None` where
/// it reports an error instead.
pub uninterp spec fn object_encoding(members: Seq<(Seq<char>, JsonModel)>) -> Option<Seq<u8>>;

/// Builds a `serde_json::Map` by `insert`, one call for each member in the
/// order given, with the member's value turned into `Value::Null`,
/// `Value::String` or an empty `Value::Array`, and calls `serde_json::to_vec`
/// on it. The contract claims only that the outcome is the one named
/// [`object_encoding`]: the same members in the same order always give the
/// same bytes or an error.
#[verifier::external_body]
fn object_to_vec(members: &Vec<Member>) -> (encoded: Result<Vec<u8>, serde_json::Error>)
    ensures
        match encoded {
            Ok(bytes) => object_encoding(members_model(members@)) == Some(bytes@),
            Err(_) => object_encoding(members_model(members@)) is None,
        },
{
    let mut object = serde_json::Map::new();
    for member in members.iter() {
        let value = match &member.value {
            JsonValue::Null => serde_json::Value::Null,
            JsonValue::Text(text) => serde_json::Value::String(text.clone()),
            JsonValue::EmptyList => serde_json::Value::Array(Vec::new()),
        };
        object.insert(member.key.clone(), value);
    }
    serde_json::to_vec(&object)
}

/// Encodes a flat JSON object as compact JSON text.
///
/// Fails with [`TicketError::Serialization`] exactly where the encoder
/// reports an error.
pub fn encode_object(members: &Vec<Member>) -> (encoded: Result<Vec<u8>, TicketError>)
    ensures
        match encoded {
            Ok(bytes) => object_encoding(members_model(members@)) == Some(bytes@),
            Err(error) => error == TicketError::Serialization && object_encoding(
                members_model(members@),
            ) is None,
        },
{
    match object_to_vec(members) {
        Ok(bytes) => Ok(bytes),
        Err(_) => Err(TicketError::Serialization),
    }
}

} // verus!
