//! The static description of a managed type: its fields and properties.

use vstd::prelude::*;

use crate::error::{Error, Result};

verus! {

/// A JSON value of the decoder, carried through unopened: the library stores
/// custom attributes and never looks inside one.
#[verifier::external_type_specification]
#[verifier::external_body]
pub struct ExValue(serde_json::Value);

/// A field of a managed type.
#[derive(Debug, Clone)]
pub struct Field {
    pub name: String,
    pub is_static: bool,
    pub custom_attributes: Vec<serde_json::Value>,
}

/// A property of a managed type, with the accessors it has.
#[derive(Debug, Clone)]
pub struct Property {
    pub name: String,
    pub is_static: bool,
    pub custom_attributes: Vec<serde_json::Value>,
    pub can_read: bool,
    pub can_write: bool,
}

/// The fields and properties of a managed type, fetched once when the type is
/// registered.
#[derive(Debug, Clone)]
pub struct MetaData {
    pub fields: Vec<Field>,
    pub properties: Vec<Property>,
}

impl Default for MetaData {
    fn default() -> (metadata: MetaData)
        ensures
            metadata.fields@.len() == 0,
            metadata.properties@.len() == 0,
    {
        MetaData { fields: Vec::new(), properties: Vec::new() }
    }
}

/// What a metadata query comes to, given the decoder's verdict on the buffer
/// where the managed side sent one.
pub open spec fn described(verdict: Option<std::result::Result<MetaData, String>>, outcome: Result<MetaData>) -> bool {
    match verdict {
        None => outcome matches Ok(metadata) && metadata.fields@.len() == 0
            && metadata.properties@.len() == 0,
        Some(Ok(metadata)) => outcome == Ok::<MetaData, Error>(metadata),
        Some(Err(text)) => outcome == Err::<MetaData, Error>(Error::Json(text)),
    }
}

impl MetaData {
    /// Concludes a metadata query. Where the managed side sent no buffer the
    /// description is empty; where it sent one, the description is what the
    /// decoder made of it, and a malformed buffer is a `Json` error.
    pub fn from_decoded(verdict: Option<std::result::Result<MetaData, String>>) -> (outcome: Result<MetaData>)
        ensures
            described(verdict, outcome),
    {
        match verdict {
            None => Ok(MetaData::default()),
            Some(Ok(metadata)) => Ok(metadata),
            Some(Err(text)) => Err(Error::Json(text)),
        }
    }
}

} // verus!
