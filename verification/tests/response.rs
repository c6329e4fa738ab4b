//! Tests of the response normalizer: rows out, none-found, and the two
//! protocol violations.

use lolesports::json::Json;
use lolesports::response::{normalize, ProtocolViolation, QueryError};

fn obj(fields: Vec<(&str, Json)>) -> Json {
    Json::Obj(fields.into_iter().map(|(k, v)| (k.to_string(), v)).collect())
}

fn envelope(rows: Vec<Json>) -> Json {
    obj(vec![("cargoquery", Json::Arr(rows))])
}

#[test]
fn empty_array_is_none_found() {
    assert_eq!(normalize(envelope(vec![])), Ok(None));
}

#[test]
fn rows_are_unwrapped_in_order() {
    let row1 = obj(vec![("title", obj(vec![("a", Json::Num("1".to_string()))]))]);
    let row2 = obj(vec![("title", obj(vec![("a", Json::Num("2".to_string()))]))]);
    let r = normalize(envelope(vec![row1, row2]));
    assert_eq!(
        r,
        Ok(Some(vec![
            obj(vec![("a", Json::Num("1".to_string()))]),
            obj(vec![("a", Json::Num("2".to_string()))]),
        ]))
    );
}

#[test]
fn missing_cargoquery_is_a_protocol_violation() {
    let r = normalize(obj(vec![("batchcomplete", Json::Str("".to_string()))]));
    assert_eq!(r, Err(QueryError::Protocol(ProtocolViolation::MissingRowArray)));
    assert_ne!(r, Ok(None));
}

#[test]
fn non_array_cargoquery_is_a_protocol_violation() {
    let r = normalize(obj(vec![("cargoquery", Json::Str("rows".to_string()))]));
    assert_eq!(r, Err(QueryError::Protocol(ProtocolViolation::MissingRowArray)));
}

#[test]
fn non_object_envelope_is_a_protocol_violation() {
    let r = normalize(Json::Arr(vec![]));
    assert_eq!(r, Err(QueryError::Protocol(ProtocolViolation::MissingRowArray)));
}

#[test]
fn row_without_wrapper_is_a_protocol_violation() {
    let good = obj(vec![("title", obj(vec![("a", Json::Num("1".to_string()))]))]);
    let bad = obj(vec![("pagename", Json::Str("x".to_string()))]);
    let r = normalize(envelope(vec![good, bad]));
    assert_eq!(r, Err(QueryError::Protocol(ProtocolViolation::MissingRowWrapper)));
}

#[test]
fn non_object_row_is_a_protocol_violation() {
    let r = normalize(envelope(vec![Json::Null]));
    assert_eq!(r, Err(QueryError::Protocol(ProtocolViolation::MissingRowWrapper)));
}

#[test]
fn other_envelope_fields_are_ignored() {
    let row = obj(vec![("title", Json::Bool(true))]);
    let env = obj(vec![
        ("batchcomplete", Json::Str("".to_string())),
        ("cargoquery", Json::Arr(vec![row])),
        ("limits", Json::Num("500".to_string())),
    ]);
    assert_eq!(normalize(env), Ok(Some(vec![Json::Bool(true)])));
}

#[test]
fn transport_errors_stay_distinct_from_protocol_errors() {
    let transport = QueryError::Transport("connection refused".to_string());
    let protocol = QueryError::Protocol(ProtocolViolation::MissingRowArray);
    assert_ne!(transport, protocol);
    assert_eq!(transport, QueryError::Transport("connection refused".to_string()));
}
