//! The trusted boundary to the document value format.
//!
//! The value format is opaque to the rest of the library: a document is
//! identified by the mapping it holds (`entries_of`), since the format
//! compares documents by keys and values, not by internal storage order.
//! Every contract here states only what the format's source shows.

use vstd::prelude::*;

verus! {

#[verifier::external_type_specification]
#[verifier::external_body]
pub struct ExBson(bson::Bson);

#[verifier::external_type_specification]
#[verifier::external_body]
pub struct ExDocument(bson::Document);

#[verifier::external_type_specification]
#[verifier::external_body]
pub struct ExSerError(bson::ser::Error);

#[verifier::external_type_specification]
#[verifier::external_body]
pub struct ExBsonDateTime(bson::DateTime);

/// What a document holds: its mapping from key to value.
pub uninterp spec fn entries_of(d: bson::Document) -> Map<Seq<char>, bson::Bson>;

/// Whether a value is an embedded document.
pub uninterp spec fn bson_is_document(b: bson::Bson) -> bool;

/// What an embedded document value holds.
pub uninterp spec fn bson_doc_entries(b: bson::Bson) -> Map<Seq<char>, bson::Bson>;

/// The value holding an ordered sequence of values.
pub uninterp spec fn bson_array(s: Seq<bson::Bson>) -> bson::Bson;

/// The boolean value.
pub uninterp spec fn bson_bool(x: bool) -> bson::Bson;

/// The 64-bit signed integer value.
pub uninterp spec fn bson_i64(x: i64) -> bson::Bson;

/// The empty mapping, for stating that a document holds nothing.
pub open spec fn no_entries() -> Map<Seq<char>, bson::Bson> {
    Map::empty()
}

/// Relies on bson::Document::new: the new document is empty.
#[verifier::external_body]
pub fn new_document() -> (r: bson::Document)
    ensures
        entries_of(r) == no_entries(),
{
    bson::Document::new()
}

/// Relies on bson::Document::insert: binds the key to the value,
/// overwriting any value the key was bound to before.
#[verifier::external_body]
pub fn insert_entry(d: &mut bson::Document, key: &String, val: bson::Bson)
    ensures
        entries_of(*final(d)) == entries_of(*old(d)).insert(key@, val),
{
    d.insert(key.as_str(), val);
}

/// Relies on the Bson::Document constructor: the resulting value is an
/// embedded document holding exactly the entries of `d`.
#[verifier::external_body]
pub fn document_into_bson(d: bson::Document) -> (b: bson::Bson)
    ensures
        bson_is_document(b),
        bson_doc_entries(b) == entries_of(d),
{
    bson::Bson::Document(d)
}

/// Relies on the Bson::Array constructor: the value is determined by the
/// elements in order.
#[verifier::external_body]
pub fn array_into_bson(v: Vec<bson::Bson>) -> (b: bson::Bson)
    ensures
        b == bson_array(v@),
{
    bson::Bson::Array(v)
}

/// Relies on the Bson::Boolean constructor.
#[verifier::external_body]
pub fn bool_into_bson(x: bool) -> (b: bson::Bson)
    ensures
        b == bson_bool(x),
{
    bson::Bson::Boolean(x)
}

/// Relies on the Bson::Int64 constructor.
#[verifier::external_body]
pub fn i64_into_bson(x: i64) -> (b: bson::Bson)
    ensures
        b == bson_i64(x),
{
    bson::Bson::Int64(x)
}

/// Relies on bson::to_bson: the generic conversion of a value into the
/// document value format; it may fail, and nothing further is assumed of
/// its result.
pub assume_specification<T>[ bson::to_bson::<T> ](value: &T) -> Result<bson::Bson, bson::ser::Error>
    where
        T: serde::Serialize + ?Sized,
;

} // verus!
