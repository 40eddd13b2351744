//! Release smoke receipts: a JSON object in a temporary file into which the
//! desktop shell merges what a release check needs to see. The receipt of an
//! authentication callback records only whether the callback arrived and
//! which of its values were present, never the values themselves.

use vstd::prelude::*;
use crate::auth_callback::query_value;

verus! {

#[verifier::external_type_specification]
#[verifier::external_body]
pub struct ExJsonValue(serde_json::Value);

#[verifier::external_type_specification]
#[verifier::external_body]
#[verifier::reject_recursive_types(K)]
#[verifier::reject_recursive_types(V)]
pub struct ExJsonMap<K, V>(serde_json::Map<K, V>);

/// The entries of a JSON object, by key.
pub uninterp spec fn json_object_entries(o: serde_json::Map<String, serde_json::Value>) -> Map<Seq<char>, serde_json::Value>;

/// The entries of the JSON object that `bytes` encode, if they encode one.
pub uninterp spec fn parsed_json_entries(bytes: Seq<u8>) -> Option<Map<Seq<char>, serde_json::Value>>;

/// The JSON text of an object.
pub uninterp spec fn serialized_json_object(o: serde_json::Map<String, serde_json::Value>) -> Seq<u8>;

/// The JSON value `true` or `false`.
pub uninterp spec fn json_bool(b: bool) -> serde_json::Value;

/// The JSON number `n`.
pub uninterp spec fn json_count(n: u64) -> serde_json::Value;

/// The JSON string with the characters `s`.
pub uninterp spec fn json_text(s: Seq<char>) -> serde_json::Value;

/// Parses `bytes` with `serde_json::from_slice` into a `serde_json::Value`
/// and keeps it when it is an object. The contract names the parsed entries
/// (deserialization is a function of the bytes); nothing more is claimed.
#[verifier::external_body]
fn parse_json_object(bytes: &[u8]) -> (o: Option<serde_json::Map<String, serde_json::Value>>)
    ensures
        match o {
            Some(object) => parsed_json_entries(bytes@) == Some(json_object_entries(object)),
            None => parsed_json_entries(bytes@) is None,
        },
{
    match serde_json::from_slice::<serde_json::Value>(bytes) {
        Ok(serde_json::Value::Object(object)) => Some(object),
        Ok(_) => None,
        Err(_) => None,
    }
}

/// The entries of an empty object.
pub open spec fn no_entries() -> Map<Seq<char>, serde_json::Value> {
    Map::empty()
}

/// `serde_json::Map::new`: an object without entries.
#[verifier::external_body]
fn new_json_object() -> (object: serde_json::Map<String, serde_json::Value>)
    ensures
        json_object_entries(object) == no_entries(),
{
    serde_json::Map::new()
}

/// `serde_json::Map::insert`: adds the entry `key`, replacing an earlier
/// entry with the same key.
#[verifier::external_body]
fn json_object_insert(o: &mut serde_json::Map<String, serde_json::Value>, key: &str, value: serde_json::Value)
    ensures
        json_object_entries(*final(o)) == json_object_entries(*old(o)).insert(key@, value),
{
    o.insert(key.to_owned(), value);
}

/// `serde_json::Value::Bool`.
#[verifier::external_body]
fn json_bool_value(b: bool) -> (v: serde_json::Value)
    ensures
        v == json_bool(b),
{
    serde_json::Value::Bool(b)
}

/// `serde_json::Value::from` a `u64`: the JSON number `n`.
#[verifier::external_body]
fn json_count_value(n: u64) -> (v: serde_json::Value)
    ensures
        v == json_count(n),
{
    serde_json::Value::from(n)
}

/// `serde_json::Value::String`.
#[verifier::external_body]
fn json_text_value(s: &str) -> (v: serde_json::Value)
    ensures
        v == json_text(s@),
{
    serde_json::Value::String(s.to_owned())
}

/// `serde_json::to_vec` of an object. Serializing a `Map<String, Value>` into
/// a `Vec` succeeds: every `Value` variant serializes without error
/// (non-finite numbers are written as `null`), every key is a string, and
/// writing into a `Vec` cannot fail; the contract names the text it gives.
#[verifier::external_body]
fn json_object_to_vec(o: &serde_json::Map<String, serde_json::Value>) -> (bytes: Option<Vec<u8>>)
    ensures
        bytes is Some,
        bytes->0@ == serialized_json_object(*o),
{
    serde_json::to_vec(o).ok()
}

/// A value recorded in a receipt.
pub enum ReceiptValue {
    Flag(bool),
    Count(u64),
    Text(String),
}

/// Mathematical model of a [`ReceiptValue`].
pub enum ReceiptModel {
    Flag(bool),
    Count(u64),
    Text(Seq<char>),
}

impl View for ReceiptValue {
    type V = ReceiptModel;

    open spec fn view(&self) -> ReceiptModel {
        match self {
            ReceiptValue::Flag(b) => ReceiptModel::Flag(*b),
            ReceiptValue::Count(n) => ReceiptModel::Count(*n),
            ReceiptValue::Text(s) => ReceiptModel::Text(s@),
        }
    }
}

pub open spec fn fields_view(fields: Seq<(String, ReceiptValue)>) -> Seq<(Seq<char>, ReceiptModel)> {
    fields.map_values(|f: (String, ReceiptValue)| (f.0@, f.1@))
}

/// The JSON value recorded for `v`.
pub open spec fn receipt_json(v: ReceiptModel) -> serde_json::Value {
    match v {
        ReceiptModel::Flag(b) => json_bool(b),
        ReceiptModel::Count(n) => json_count(n),
        ReceiptModel::Text(s) => json_text(s),
    }
}

/// Whether query value `name` of `url` is present and not empty.
pub open spec fn query_present(url: Seq<char>, name: Seq<char>) -> bool {
    query_value(url, name) is Some && query_value(url, name)->0.len() > 0
}

/// The fields a callback receipt records: that the callback arrived, which
/// of its state, token and user id are present, whether it was forwarded to a
/// running instance (only when it was), and the renderer's outcome (only once
/// the renderer reported one).
pub open spec fn auth_receipt_fields(url: Seq<char>, forwarded: Option<bool>, outcome: Option<Seq<char>>) -> Seq<
    (Seq<char>, ReceiptModel),
> {
    seq![
        ("callbackReceived"@, ReceiptModel::Flag(true)),
        ("hasState"@, ReceiptModel::Flag(query_present(url, "state"@))),
        ("hasToken"@, ReceiptModel::Flag(query_present(url, "token"@))),
        ("hasUserId"@, ReceiptModel::Flag(query_present(url, "userId"@))),
    ] + (if forwarded == Some(true) {
        seq![("forwardedToRunningInstance"@, ReceiptModel::Flag(true))]
    } else {
        Seq::empty()
    }) + match outcome {
        Some(o) => seq![("rendererReceived"@, ReceiptModel::Flag(true)), ("rendererOutcome"@, ReceiptModel::Text(o))],
        None => Seq::empty(),
    }
}

/// `entries` with the fields written in order, a later one replacing an
/// earlier one with the same key.
pub open spec fn with_fields(entries: Map<Seq<char>, serde_json::Value>, fields: Seq<(Seq<char>, ReceiptModel)>) -> Map<
    Seq<char>,
    serde_json::Value,
>
    decreases fields.len(),
{
    if fields.len() == 0 {
        entries
    } else {
        with_fields(entries, fields.drop_last()).insert(fields.last().0, receipt_json(fields.last().1))
    }
}

/// The entries of a receipt after merging `fields` into the receipt stored
/// as `existing`; stored bytes that are not a JSON object count as an empty receipt.
pub open spec fn merged_receipt(existing: Seq<u8>, fields: Seq<(Seq<char>, ReceiptModel)>) -> Map<
    Seq<char>,
    serde_json::Value,
> {
    with_fields(
        match parsed_json_entries(existing) {
            Some(entries) => entries,
            None => no_entries(),
        },
        fields,
    )
}

fn field(key: &str, value: ReceiptValue) -> (f: (String, ReceiptValue))
    ensures
        f.0@ == key@,
        f.1@ == value@,
{
    (key.to_owned(), value)
}

/// The fields of the receipt for callback `callback_url`.
pub fn auth_smoke_receipt_fields(
    callback_url: &str,
    forwarded_to_running_instance: Option<bool>,
    renderer_outcome: Option<&str>,
) -> (fields: Vec<(String, ReceiptValue)>)
    ensures
        fields_view(fields@) == auth_receipt_fields(
            callback_url@,
            forwarded_to_running_instance,
            match renderer_outcome {
                Some(o) => Some(o@),
                None => None,
            },
        ),
{
    let mut fields: Vec<(String, ReceiptValue)> = Vec::new();
    fields.push(field("callbackReceived", ReceiptValue::Flag(true)));
    fields.push(field("hasState", ReceiptValue::Flag(crate::auth_callback::desktop_auth_callback_has_value(callback_url, "state"))));
    fields.push(field("hasToken", ReceiptValue::Flag(crate::auth_callback::desktop_auth_callback_has_value(callback_url, "token"))));
    fields.push(field("hasUserId", ReceiptValue::Flag(crate::auth_callback::desktop_auth_callback_has_value(callback_url, "userId"))));
    if forwarded_to_running_instance == Some(true) {
        fields.push(field("forwardedToRunningInstance", ReceiptValue::Flag(true)));
    }
    if let Some(outcome) = renderer_outcome {
        fields.push(field("rendererReceived", ReceiptValue::Flag(true)));
        fields.push(field("rendererOutcome", ReceiptValue::Text(outcome.to_owned())));
    }
    assert(fields_view(fields@) =~= auth_receipt_fields(
        callback_url@,
        forwarded_to_running_instance,
        match renderer_outcome {
            Some(o) => Some(o@),
            None => None,
        },
    ));
    fields
}

fn receipt_json_value(value: &ReceiptValue) -> (v: serde_json::Value)
    ensures
        v == receipt_json(value@),
{
    match value {
        ReceiptValue::Flag(b) => json_bool_value(*b),
        ReceiptValue::Count(n) => json_count_value(*n),
        ReceiptValue::Text(s) => json_text_value(s.as_str()),
    }
}

/// Merges `fields` into the receipt stored as `existing` and returns the
/// receipt's new JSON text.
pub fn merge_smoke_receipt(existing: &[u8], fields: &[(String, ReceiptValue)]) -> (merged: Vec<u8>)
    ensures
        exists|o: serde_json::Map<String, serde_json::Value>|
            json_object_entries(o) == merged_receipt(existing@, fields_view(fields@))
                && merged@ == serialized_json_object(o),
{
    let mut receipt = match parse_json_object(existing) {
        Some(object) => object,
        None => new_json_object(),
    };
    let ghost base = json_object_entries(receipt);
    assert(base == match parsed_json_entries(existing@) {
        Some(entries) => entries,
        None => no_entries(),
    });
    let n = fields.len();
    let mut i: usize = 0;
    while i < n
        invariant
            n == fields@.len(),
            i <= n,
            json_object_entries(receipt) == with_fields(base, fields_view(fields@).subrange(0, i as int)),
        decreases n - i,
    {
        let value = receipt_json_value(&fields[i].1);
        json_object_insert(&mut receipt, fields[i].0.as_str(), value);
        proof {
            let done = fields_view(fields@).subrange(0, i + 1);
            assert(done.drop_last() =~= fields_view(fields@).subrange(0, i as int));
            assert(done.last() == (fields@[i as int].0@, fields@[i as int].1@));
        }
        i += 1;
    }
    assert(fields_view(fields@).subrange(0, n as int) =~= fields_view(fields@));
    assert(json_object_entries(receipt) == merged_receipt(existing@, fields_view(fields@)));
    json_object_to_vec(&receipt).unwrap()
}

/// A callback receipt records no value of the callback: every field but the
/// renderer's outcome is a flag, so the state, token and user id never reach it.
pub proof fn law_auth_receipt_records_presence_only(url: Seq<char>, forwarded: Option<bool>, outcome: Option<Seq<char>>, i: int)
    requires
        0 <= i < auth_receipt_fields(url, forwarded, outcome).len(),
    ensures
        ({
            let f = auth_receipt_fields(url, forwarded, outcome)[i];
            match f.1 {
                ReceiptModel::Flag(_) => true,
                ReceiptModel::Count(_) => false,
                ReceiptModel::Text(t) => f.0 == "rendererOutcome"@ && outcome == Some(t),
            }
        }),
{
    let fields = auth_receipt_fields(url, forwarded, outcome);
    let head = seq![
        ("callbackReceived"@, ReceiptModel::Flag(true)),
        ("hasState"@, ReceiptModel::Flag(query_present(url, "state"@))),
        ("hasToken"@, ReceiptModel::Flag(query_present(url, "token"@))),
        ("hasUserId"@, ReceiptModel::Flag(query_present(url, "userId"@))),
    ];
    let middle: Seq<(Seq<char>, ReceiptModel)> = if forwarded == Some(true) {
        seq![("forwardedToRunningInstance"@, ReceiptModel::Flag(true))]
    } else {
        Seq::empty()
    };
    if i >= head.len() + middle.len() {
        assert(outcome is Some);
    }
}

} // verus!
