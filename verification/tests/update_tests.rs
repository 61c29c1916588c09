use std::collections::HashMap;

use bson::oid::ObjectId;
use bson::{Bson, Document};
use chrono::{DateTime, Utc};
use mqb::kp::{HashMapKeyPathNode, RootNode, TerminalKeyPathNode};
use mqb::UpdateBuilder;

pub struct Person;

type Ser<T> = fn(&T) -> Result<Bson, bson::ser::Error>;

fn ser_oid(v: &ObjectId) -> Result<Bson, bson::ser::Error> {
    bson::to_bson(v)
}

fn ser_oid_hex(v: &ObjectId) -> Result<Bson, bson::ser::Error> {
    Ok(Bson::String(v.to_hex()))
}

fn ser_dt(v: &DateTime<Utc>) -> Result<Bson, bson::ser::Error> {
    Ok(Bson::DateTime(bson::DateTime::from_chrono(*v)))
}

fn ser_i32(v: &i32) -> Result<Bson, bson::ser::Error> {
    bson::to_bson(v)
}

fn ser_attempts(v: &HashMap<String, Vec<i32>>) -> Result<Bson, bson::ser::Error> {
    bson::to_bson(v)
}

fn ser_attempt_list(v: &Vec<i32>) -> Result<Bson, bson::ser::Error> {
    bson::to_bson(v)
}

type PersonRoot = RootNode<Person>;
type PersonField<T> = TerminalKeyPathNode<PersonRoot, T, T, Ser<T>>;
type AttemptsNode = HashMapKeyPathNode<
    PersonRoot,
    Vec<i32>,
    HashMap<String, Vec<i32>>,
    Ser<HashMap<String, Vec<i32>>>,
    Ser<Vec<i32>>,
>;

fn kp_id() -> PersonField<ObjectId> {
    TerminalKeyPathNode::instance("_id", ser_oid as Ser<ObjectId>, RootNode::new())
}

fn kp_profile_id() -> PersonField<ObjectId> {
    TerminalKeyPathNode::instance("ProfileId", ser_oid_hex as Ser<ObjectId>, RootNode::new())
}

fn kp_time() -> TerminalKeyPathNode<PersonRoot, DateTime<Utc>, bson::DateTime, Ser<DateTime<Utc>>> {
    TerminalKeyPathNode::instance("Time", ser_dt as Ser<DateTime<Utc>>, RootNode::new())
}

fn kp_age() -> PersonField<i32> {
    TerminalKeyPathNode::instance("Age", ser_i32 as Ser<i32>, RootNode::new())
}

fn kp_attempts() -> AttemptsNode {
    HashMapKeyPathNode::instance(
        "Attempts",
        ser_attempts as Ser<HashMap<String, Vec<i32>>>,
        ser_attempt_list as Ser<Vec<i32>>,
        RootNode::new(),
    )
}

fn each_doc(values: Vec<i32>) -> Document {
    let mut d = Document::new();
    d.insert("$each", values);
    d
}

#[test]
fn basic_update_test() {
    let oid = ObjectId::new();
    let profile_id = ObjectId::new();

    let update = UpdateBuilder::<Person>::new()
        .set(kp_id(), oid)
        .current_date(kp_time())
        .set_on_insert(kp_profile_id(), profile_id)
        .push(kp_attempts().key("attempt_id_1".to_string()), 12)
        .try_build()
        .unwrap();

    let mut set = Document::new();
    set.insert("_id", oid);
    let mut push = Document::new();
    push.insert("Attempts.attempt_id_1", each_doc(vec![12]));
    let mut set_on_insert = Document::new();
    set_on_insert.insert("ProfileId", profile_id.to_hex());
    let mut current_date = Document::new();
    current_date.insert("Time", true);
    let mut expected = Document::new();
    expected.insert("$set", set);
    expected.insert("$push", push);
    expected.insert("$setOnInsert", set_on_insert);
    expected.insert("$currentDate", current_date);

    assert_eq!(update, expected);
}

#[test]
fn test_empty_update() {
    let update = UpdateBuilder::<Person>::new().try_build().unwrap();

    let expected = Document::new();

    assert_eq!(update, expected);
}

#[test]
fn test_add_to_set_operations() {
    let update = UpdateBuilder::<Person>::new()
        .add_to_set(kp_attempts().key("test1".to_string()), 1)
        .add_to_set(kp_attempts().key("test1".to_string()), 2)
        .add_to_set(kp_attempts().key("test2".to_string()), 3)
        .try_build()
        .unwrap();

    let mut add_to_set = Document::new();
    add_to_set.insert("Attempts.test1", each_doc(vec![1, 2]));
    add_to_set.insert("Attempts.test2", each_doc(vec![3]));
    let mut expected = Document::new();
    expected.insert("$addToSet", add_to_set);

    assert_eq!(update, expected);
}

#[test]
fn test_current_date_multiple_fields() {
    let update = UpdateBuilder::<Person>::new()
        .current_date(kp_time())
        .set(kp_age(), 25)
        .try_build()
        .unwrap();

    let mut current_date = Document::new();
    current_date.insert("Time", true);
    let mut set = Document::new();
    set.insert("Age", 25);
    let mut expected = Document::new();
    expected.insert("$currentDate", current_date);
    expected.insert("$set", set);

    assert_eq!(update, expected);
}

#[test]
fn test_set_on_insert_multiple() {
    let profile_id = ObjectId::new();
    let now = Utc::now();

    let update = UpdateBuilder::<Person>::new()
        .set_on_insert(kp_profile_id(), profile_id)
        .set_on_insert(kp_time(), now)
        .set_on_insert(kp_age(), 18)
        .try_build()
        .unwrap();

    let mut set_on_insert = Document::new();
    set_on_insert.insert("ProfileId", profile_id.to_hex());
    set_on_insert.insert("Time", bson::DateTime::from_chrono(now));
    set_on_insert.insert("Age", 18);
    let mut expected = Document::new();
    expected.insert("$setOnInsert", set_on_insert);

    assert_eq!(update, expected);
}

#[test]
fn test_combined_array_operations() {
    let update = UpdateBuilder::<Person>::new()
        .push(kp_attempts().key("scores".to_string()), 90)
        .add_to_set(kp_attempts().key("unique_scores".to_string()), 95)
        .add_to_set(kp_attempts().key("unique_scores".to_string()), 105)
        .push(kp_attempts().key("scores".to_string()), 85)
        .try_build()
        .unwrap();

    let mut push = Document::new();
    push.insert("Attempts.scores", each_doc(vec![90, 85]));
    let mut add_to_set = Document::new();
    add_to_set.insert("Attempts.unique_scores", each_doc(vec![95, 105]));
    let mut expected = Document::new();
    expected.insert("$push", push);
    expected.insert("$addToSet", add_to_set);

    assert_eq!(update, expected);
}

#[test]
fn test_all_operations_combined() {
    let profile_id = ObjectId::new();

    let update = UpdateBuilder::<Person>::new()
        .set(kp_age(), 30)
        .set_on_insert(kp_profile_id(), profile_id)
        .push(kp_attempts().key("recent".to_string()), 100)
        .add_to_set(kp_attempts().key("unique".to_string()), 105)
        .inc(kp_age(), 1)
        .current_date(kp_time())
        .try_build()
        .unwrap();

    let mut set = Document::new();
    set.insert("Age", 30);
    let mut set_on_insert = Document::new();
    set_on_insert.insert("ProfileId", profile_id.to_hex());
    let mut push = Document::new();
    push.insert("Attempts.recent", each_doc(vec![100]));
    let mut add_to_set = Document::new();
    add_to_set.insert("Attempts.unique", each_doc(vec![105]));
    let mut inc = Document::new();
    inc.insert("Age", 1_i64);
    let mut current_date = Document::new();
    current_date.insert("Time", true);
    let mut expected = Document::new();
    expected.insert("$set", set);
    expected.insert("$setOnInsert", set_on_insert);
    expected.insert("$push", push);
    expected.insert("$addToSet", add_to_set);
    expected.insert("$inc", inc);
    expected.insert("$currentDate", current_date);

    assert_eq!(update, expected);
}
