//! Schema-binding decisions on plain values.
//!
//! The scanning of a record's serialization attributes is an outside
//! concern; this module takes what the scan found — the record's
//! field-naming strategy, a field's explicit rename, its custom
//! serialization directives — and decides the rendered key segment, the
//! serializer path, and the underlying-type hint that the path nodes are
//! bound with.

use vstd::prelude::*;
use vstd::string::StringExecFns;

verus! {

/// The field-naming strategy a record declares for its serialized form.
pub enum SerdeFieldRenameStrategy {
    CamelCase,
    FieldSpecific,
    PascalCase,
    ScreamingSnakeCase,
}

/// The camel-case rendering of an identifier.
pub uninterp spec fn camel_of(s: Seq<char>) -> Seq<char>;

/// The pascal-case rendering of an identifier.
pub uninterp spec fn pascal_of(s: Seq<char>) -> Seq<char>;

/// The upper-snake-case rendering of an identifier.
pub uninterp spec fn screaming_snake_of(s: Seq<char>) -> Seq<char>;

/// Relies on convert_case's Casing::to_case with the camel case: the
/// result depends on the characters alone.
#[verifier::external_body]
fn to_camel(s: &String) -> (r: String)
    ensures
        r@ == camel_of(s@),
{
    convert_case::Casing::to_case(s, convert_case::Case::Camel)
}

/// Relies on convert_case's Casing::to_case with the pascal case: the
/// result depends on the characters alone.
#[verifier::external_body]
fn to_pascal(s: &String) -> (r: String)
    ensures
        r@ == pascal_of(s@),
{
    convert_case::Casing::to_case(s, convert_case::Case::Pascal)
}

/// Relies on convert_case's Casing::to_case with the constant case (all
/// uppercase, underscore-delimited): the result depends on the characters
/// alone.
#[verifier::external_body]
fn to_screaming_snake(s: &String) -> (r: String)
    ensures
        r@ == screaming_snake_of(s@),
{
    convert_case::Casing::to_case(s, convert_case::Case::Constant)
}

/// The rendered key for a field: an explicit override wins, otherwise
/// the record's strategy is applied to the field's own name.
pub open spec fn spec_ser_field_name(
    field: Seq<char>,
    strategy: SerdeFieldRenameStrategy,
    rename_override: Option<Seq<char>>,
) -> Seq<char> {
    match rename_override {
        Some(name) => name,
        None => match strategy {
            SerdeFieldRenameStrategy::CamelCase => camel_of(field),
            SerdeFieldRenameStrategy::FieldSpecific => field,
            SerdeFieldRenameStrategy::PascalCase => pascal_of(field),
            SerdeFieldRenameStrategy::ScreamingSnakeCase => screaming_snake_of(field),
        },
    }
}

/// Render the key segment for one field: a field-specific explicit
/// rename takes precedence; all other fields get the record's strategy
/// applied uniformly.
pub fn ser_field_name(
    field: &String,
    strategy: &SerdeFieldRenameStrategy,
    rename_override: Option<String>,
) -> (r: String)
    ensures
        rename_override matches Some(o) ==> r@ == spec_ser_field_name(
            field@,
            *strategy,
            Some(o@),
        ),
        rename_override is None ==> r@ == spec_ser_field_name(field@, *strategy, None),
{
    match rename_override {
        Some(o) => o,
        None => match strategy {
            SerdeFieldRenameStrategy::CamelCase => to_camel(field),
            SerdeFieldRenameStrategy::FieldSpecific => field.clone(),
            SerdeFieldRenameStrategy::PascalCase => to_pascal(field),
            SerdeFieldRenameStrategy::ScreamingSnakeCase => to_screaming_snake(field),
        },
    }
}

/// The strategy a rename-all declaration names, if any.
pub open spec fn spec_rename_strategy(name: Seq<char>) -> Option<SerdeFieldRenameStrategy> {
    if name == "PascalCase"@ {
        Some(SerdeFieldRenameStrategy::PascalCase)
    } else if name == "SCREAMING_SNAKE_CASE"@ {
        Some(SerdeFieldRenameStrategy::ScreamingSnakeCase)
    } else if name == "camelCase"@ {
        Some(SerdeFieldRenameStrategy::CamelCase)
    } else {
        None
    }
}

/// Parse the strategy that a record-level rename-all declaration names;
/// an unknown name is rejected.
pub fn rename_strategy_from_name(name: &String) -> (r: Option<SerdeFieldRenameStrategy>)
    ensures
        r == spec_rename_strategy(name@),
{
    if *name == "PascalCase".to_owned() {
        Some(SerdeFieldRenameStrategy::PascalCase)
    } else if *name == "SCREAMING_SNAKE_CASE".to_owned() {
        Some(SerdeFieldRenameStrategy::ScreamingSnakeCase)
    } else if *name == "camelCase".to_owned() {
        Some(SerdeFieldRenameStrategy::CamelCase)
    } else {
        None
    }
}

/// Where a field's custom serializer function lives: a direct directive
/// names the function itself, a module directive contributes its
/// serialize item, and without either the default conversion is used.
pub fn serializer_path(serialize_with: Option<String>, with_module: Option<String>) -> (r: Option<
    String,
>)
    ensures
        serialize_with matches Some(p) ==> (r matches Some(q) && q@ == p@),
        serialize_with is None ==> (with_module matches Some(m) ==> (r matches Some(q) && q@ == m@
            + "::serialize"@)),
        (serialize_with is None && with_module is None) ==> r is None,
{
    match serialize_with {
        Some(p) => Some(p),
        None => match with_module {
            Some(m) => {
                let mut s = m;
                s.append("::serialize");
                Some(s)
            },
            None => None,
        },
    }
}

/// The externally visible shape of a field once serialized.
pub enum UnderlyingTypeHint {
    /// No custom serializer: the field keeps its own shape.
    SameAsField,
    /// The date-time helper renders the field as a native timestamp.
    TimestampValue,
    /// Some other custom serializer: the shape is not statically known.
    Unknown,
}

/// Decide the underlying-type hint from a field's custom serializer
/// directive.
pub fn underlying_type_hint(serialize_with: &Option<String>) -> (r: UnderlyingTypeHint)
    ensures
        serialize_with is None ==> r is SameAsField,
        serialize_with matches Some(p) ==> (if p@
            == "bson::serde_helpers::chrono_datetime_as_bson_datetime"@ {
            r is TimestampValue
        } else {
            r is Unknown
        }),
{
    match serialize_with {
        None => UnderlyingTypeHint::SameAsField,
        Some(p) => {
            if *p == "bson::serde_helpers::chrono_datetime_as_bson_datetime".to_owned() {
                UnderlyingTypeHint::TimestampValue
            } else {
                UnderlyingTypeHint::Unknown
            }
        },
    }
}

} // verus!
