//! REST /info requests: cold-start snapshots of a target's positions and
//! the exchange's asset metadata.
use vstd::prelude::*;
use crate::json::{push_field, Json, JsonValue};
use crate::text::concat_str;

verus! {

/// `{"type": "clearinghouseState", "user": <user>}`
pub open spec fn clearinghouse_state_value(user: Seq<char>) -> JsonValue {
    JsonValue::Object(
        seq![("type"@, JsonValue::Str("clearinghouseState"@)), ("user"@, JsonValue::Str(user))],
    )
}

/// The /info request for a user's open positions and margin.
pub fn clearinghouse_state_request(user: &str) -> (j: Json)
    ensures
        j@ == clearinghouse_state_value(user@),
{
    let mut fields: Vec<(String, Json)> = Vec::new();
    push_field(&mut fields, "type", Json::text("clearinghouseState"));
    push_field(&mut fields, "user", Json::text(user));
    assert(crate::json::fields_view(fields@) =~= seq![
        ("type"@, JsonValue::Str("clearinghouseState"@)),
        ("user"@, JsonValue::Str(user@)),
    ]);
    Json::Object(fields)
}

/// `{"type": "meta"}`
pub open spec fn meta_value() -> JsonValue {
    JsonValue::Object(seq![("type"@, JsonValue::Str("meta"@))])
}

/// The /info request for the exchange's asset metadata.
pub fn meta_request() -> (j: Json)
    ensures
        j@ == meta_value(),
{
    let mut fields: Vec<(String, Json)> = Vec::new();
    push_field(&mut fields, "type", Json::text("meta"));
    Json::Object(fields)
}

/// The /info endpoint under an API base URL.
pub fn info_url(base: &str) -> (u: String)
    ensures
        u@ == base@ + "/info"@,
{
    concat_str(base, "/info")
}

} // verus!
