use bson::{Bson, Document};
use mqb::kp::{render, RootNode, TerminalKeyPathNode};
use mqb::schema::{
    rename_strategy_from_name, ser_field_name, serializer_path, underlying_type_hint,
    SerdeFieldRenameStrategy, UnderlyingTypeHint,
};
use mqb::{FilterBuilder, UpdateBuilder};
use serde::ser::Error as _;
use std::collections::HashMap;

pub struct Person;
pub struct Address;

type Ser<T> = fn(&T) -> Result<Bson, bson::ser::Error>;

fn ser_i32(v: &i32) -> Result<Bson, bson::ser::Error> {
    bson::to_bson(v)
}

fn ser_i32_failing(_v: &i32) -> Result<Bson, bson::ser::Error> {
    Err(bson::ser::Error::custom("rejected by the custom serializer"))
}

fn ser_string(v: &String) -> Result<Bson, bson::ser::Error> {
    bson::to_bson(v)
}

fn ser_opt_string(v: &Option<String>) -> Result<Bson, bson::ser::Error> {
    bson::to_bson(v)
}

fn ser_address(_v: &Address) -> Result<Bson, bson::ser::Error> {
    Ok(Bson::Null)
}

type PersonRoot = RootNode<Person>;
type PersonField<T> = TerminalKeyPathNode<PersonRoot, T, T, Ser<T>>;
type AttemptsNode = mqb::kp::HashMapKeyPathNode<
    PersonRoot,
    Vec<i32>,
    HashMap<String, Vec<i32>>,
    Ser<HashMap<String, Vec<i32>>>,
    Ser<Vec<i32>>,
>;

fn ser_attempts(v: &HashMap<String, Vec<i32>>) -> Result<Bson, bson::ser::Error> {
    bson::to_bson(v)
}

fn ser_attempt_list(v: &Vec<i32>) -> Result<Bson, bson::ser::Error> {
    bson::to_bson(v)
}

fn kp_age() -> PersonField<i32> {
    TerminalKeyPathNode::instance("Age", ser_i32 as Ser<i32>, RootNode::new())
}

fn kp_age_failing() -> PersonField<i32> {
    TerminalKeyPathNode::instance("Age", ser_i32_failing as Ser<i32>, RootNode::new())
}

fn kp_nickname() -> PersonField<Option<String>> {
    TerminalKeyPathNode::instance(
        "Nickname",
        ser_opt_string as Ser<Option<String>>,
        RootNode::new(),
    )
}

fn kp_address_city(
) -> TerminalKeyPathNode<TerminalKeyPathNode<PersonRoot, Address, Address, Ser<Address>>, String, String, Ser<String>>
{
    let address = TerminalKeyPathNode::instance("Address", ser_address as Ser<Address>, RootNode::new());
    TerminalKeyPathNode::instance("City", ser_string as Ser<String>, address)
}

fn kp_attempts() -> AttemptsNode {
    mqb::kp::HashMapKeyPathNode::instance(
        "Attempts",
        ser_attempts as Ser<HashMap<String, Vec<i32>>>,
        ser_attempt_list as Ser<Vec<i32>>,
        RootNode::new(),
    )
}

#[test]
fn render_walks_the_chain_to_the_root() {
    assert_eq!(render(&RootNode::<Person>::new()), "");
    assert_eq!(render(&kp_age()), "Age");
    assert_eq!(render(&kp_address_city()), "Address.City");
    assert_eq!(
        render(&kp_attempts().key("slot".to_string())),
        "Attempts.slot"
    );
}

#[test]
fn distinct_paths_commute() {
    let one = FilterBuilder::<Person>::new()
        .gt(kp_age(), 18)
        .existence::<true, _, _>(kp_nickname())
        .try_build()
        .unwrap();
    let other = FilterBuilder::<Person>::new()
        .existence::<true, _, _>(kp_nickname())
        .gt(kp_age(), 18)
        .try_build()
        .unwrap();

    assert_eq!(one, other);

    let mut age = Document::new();
    age.insert("$gt", 18);
    let mut nickname = Document::new();
    nickname.insert("$exists", true);
    let mut expected = Document::new();
    expected.insert("Age", age);
    expected.insert("Nickname", nickname);
    assert_eq!(one, expected);
}

#[test]
fn last_write_wins_on_same_operator_and_path() {
    let filter = FilterBuilder::<Person>::new()
        .eq(kp_age(), 18)
        .eq(kp_age(), 42)
        .try_build()
        .unwrap();

    let mut age = Document::new();
    age.insert("$eq", 42);
    let mut expected = Document::new();
    expected.insert("Age", age);
    assert_eq!(filter, expected);

    let update = UpdateBuilder::<Person>::new()
        .set(kp_age(), 18)
        .set(kp_age(), 42)
        .try_build()
        .unwrap();

    let mut set = Document::new();
    set.insert("Age", 42);
    let mut expected_update = Document::new();
    expected_update.insert("$set", set);
    assert_eq!(update, expected_update);
}

#[test]
fn push_concatenates_in_call_order() {
    let update = UpdateBuilder::<Person>::new()
        .push(kp_attempts().key("a".to_string()), 7)
        .push(kp_attempts().key("a".to_string()), 9)
        .push(kp_attempts().key("a".to_string()), 8)
        .try_build()
        .unwrap();

    let mut each = Document::new();
    each.insert("$each", vec![7, 9, 8]);
    let mut push = Document::new();
    push.insert("Attempts.a", each);
    let mut expected = Document::new();
    expected.insert("$push", push);
    assert_eq!(update, expected);
}

#[test]
fn push_pair_accumulates_in_call_order() {
    let update = UpdateBuilder::<Person>::new()
        .push(kp_attempts().key("a".to_string()), 12)
        .push(kp_attempts().key("a".to_string()), 7)
        .try_build()
        .unwrap();

    let mut each = Document::new();
    each.insert("$each", vec![12, 7]);
    let mut push = Document::new();
    push.insert("Attempts.a", each);
    let mut expected = Document::new();
    expected.insert("$push", push);
    assert_eq!(update, expected);
}

#[test]
fn add_to_set_keeps_duplicates() {
    let update = UpdateBuilder::<Person>::new()
        .add_to_set(kp_attempts().key("a".to_string()), 12)
        .add_to_set(kp_attempts().key("a".to_string()), 12)
        .try_build()
        .unwrap();

    let mut each = Document::new();
    each.insert("$each", vec![12, 12]);
    let mut add_to_set = Document::new();
    add_to_set.insert("Attempts.a", each);
    let mut expected = Document::new();
    expected.insert("$addToSet", add_to_set);
    assert_eq!(update, expected);
}

#[test]
fn empty_filter_builds_an_empty_document() {
    let filter = FilterBuilder::<Person>::new().try_build().unwrap();
    assert_eq!(filter, Document::new());
}

#[test]
fn increment_replaces_the_prior_delta() {
    let update = UpdateBuilder::<Person>::new()
        .inc(kp_age(), 5)
        .inc(kp_age(), 1)
        .try_build()
        .unwrap();

    let mut inc = Document::new();
    inc.insert("Age", 1_i64);
    let mut expected = Document::new();
    expected.insert("$inc", inc);
    assert_eq!(update, expected);
}

#[test]
fn existence_overwrites_the_prior_flag() {
    let filter = FilterBuilder::<Person>::new()
        .existence::<true, _, _>(kp_nickname())
        .existence::<false, _, _>(kp_nickname())
        .try_build()
        .unwrap();

    let mut nickname = Document::new();
    nickname.insert("$exists", false);
    let mut expected = Document::new();
    expected.insert("Nickname", nickname);
    assert_eq!(filter, expected);
}

#[test]
fn membership_replaces_the_prior_list() {
    let filter = FilterBuilder::<Person>::new()
        .is_in(kp_age(), vec![1, 2])
        .is_in(kp_age(), vec![3, 4, 5])
        .try_build()
        .unwrap();

    let mut age = Document::new();
    age.insert("$in", vec![3, 4, 5]);
    let mut expected = Document::new();
    expected.insert("Age", age);
    assert_eq!(filter, expected);
}

#[test]
fn a_failing_serialization_makes_the_build_fail() {
    let built = FilterBuilder::<Person>::new()
        .eq(kp_age(), 18)
        .eq(kp_age_failing(), 42)
        .eq(kp_age(), 65)
        .try_build();
    assert!(built.is_err());

    let update_built = UpdateBuilder::<Person>::new()
        .set(kp_age(), 18)
        .set(kp_age_failing(), 42)
        .set(kp_age(), 65)
        .try_build();
    assert!(update_built.is_err());
}

#[test]
fn a_failing_membership_element_makes_the_build_fail() {
    let built = FilterBuilder::<Person>::new()
        .is_in(kp_age_failing(), vec![1, 2, 3])
        .try_build();
    assert!(built.is_err());
}

#[test]
fn rendered_key_follows_the_strategy_or_the_override() {
    assert_eq!(
        ser_field_name(
            &"profile_id".to_string(),
            &SerdeFieldRenameStrategy::PascalCase,
            None
        ),
        "ProfileId"
    );
    assert_eq!(
        ser_field_name(
            &"profile_id".to_string(),
            &SerdeFieldRenameStrategy::CamelCase,
            None
        ),
        "profileId"
    );
    assert_eq!(
        ser_field_name(
            &"profile_id".to_string(),
            &SerdeFieldRenameStrategy::ScreamingSnakeCase,
            None
        ),
        "PROFILE_ID"
    );
    assert_eq!(
        ser_field_name(
            &"profile_id".to_string(),
            &SerdeFieldRenameStrategy::FieldSpecific,
            None
        ),
        "profile_id"
    );
    assert_eq!(
        ser_field_name(
            &"id".to_string(),
            &SerdeFieldRenameStrategy::PascalCase,
            Some("_id".to_string())
        ),
        "_id"
    );
}

#[test]
fn rename_strategy_names_are_recognized() {
    assert!(matches!(
        rename_strategy_from_name(&"PascalCase".to_string()),
        Some(SerdeFieldRenameStrategy::PascalCase)
    ));
    assert!(matches!(
        rename_strategy_from_name(&"SCREAMING_SNAKE_CASE".to_string()),
        Some(SerdeFieldRenameStrategy::ScreamingSnakeCase)
    ));
    assert!(matches!(
        rename_strategy_from_name(&"camelCase".to_string()),
        Some(SerdeFieldRenameStrategy::CamelCase)
    ));
    assert!(matches!(
        rename_strategy_from_name(&"kebab-case".to_string()),
        None
    ));
}

#[test]
fn serializer_directives_resolve_to_a_path() {
    assert_eq!(
        serializer_path(Some("my_mod::ser".to_string()), None),
        Some("my_mod::ser".to_string())
    );
    assert_eq!(
        serializer_path(None, Some("my_mod".to_string())),
        Some("my_mod::serialize".to_string())
    );
    assert_eq!(serializer_path(None, None), None);
    assert_eq!(
        serializer_path(
            Some("direct::ser".to_string()),
            Some("my_mod".to_string())
        ),
        Some("direct::ser".to_string())
    );
}

#[test]
fn underlying_type_hints_follow_the_directive() {
    assert!(matches!(
        underlying_type_hint(&None),
        UnderlyingTypeHint::SameAsField
    ));
    assert!(matches!(
        underlying_type_hint(&Some(
            "bson::serde_helpers::chrono_datetime_as_bson_datetime".to_string()
        )),
        UnderlyingTypeHint::TimestampValue
    ));
    assert!(matches!(
        underlying_type_hint(&Some("crate::object_id_as_hex_string::serialize".to_string())),
        UnderlyingTypeHint::Unknown
    ));
}

#[test]
fn membership_serializes_every_element_in_order() {
    let filter = FilterBuilder::<Person>::new()
        .is_in(kp_age(), vec![1, 2, 3])
        .try_build()
        .unwrap();

    let mut age = Document::new();
    age.insert("$in", vec![1, 2, 3]);
    let mut expected = Document::new();
    expected.insert("Age", age);
    assert_eq!(filter, expected);
}
