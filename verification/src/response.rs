//! The response normalizer: turns the raw JSON envelope of a cargo query
//! into a plain list of result rows, or an explicit "none found" outcome,
//! or a protocol-violation error.
//!
//! The envelope must hold a top-level `cargoquery` array; each of its
//! elements must wrap the requested fields in a nested object under the
//! literal key `title`.  This crate commits to that wrapped row shape as the
//! protocol version it speaks: the wrapper is stripped, never passed on.
//! A missing or mistyped `cargoquery` field and a missing wrapper are both
//! fatal protocol violations, kept strictly apart from the valid empty
//! answer.

use vstd::prelude::*;

use crate::json::{find_key, spec_lookup, Json};

verus! {

/// The ways a well-formed HTTP answer can still break the query protocol.
#[derive(Debug, Clone, Copy, PartialEq, Eq)]
pub enum ProtocolViolation {
    /// The envelope has no top-level `cargoquery` array.
    MissingRowArray,
    /// A result row has no nested `title` wrapper object.
    MissingRowWrapper,
}

/// A failed query: either the transport failed outright, or the remote
/// endpoint answered outside the protocol.
#[derive(Debug, PartialEq, Eq)]
pub enum QueryError {
    /// Network, authentication or decoding failure of the underlying
    /// transport, with its own description.
    Transport(String),
    /// The response decoded, but violated the query protocol.
    Protocol(ProtocolViolation),
}

/// The result-row array of an envelope: the value of its top-level
/// `cargoquery` field, when that value is an array.
pub open spec fn spec_rows(envelope: Json) -> Option<Seq<Json>> {
    match envelope {
        Json::Obj(fields) => match spec_lookup(fields@, "cargoquery"@) {
            Some(Json::Arr(rows)) => Some(rows@),
            _ => None,
        },
        _ => None,
    }
}

/// The content of one result row: the value of its `title` wrapper field.
pub open spec fn spec_row_content(row: Json) -> Option<Json> {
    match row {
        Json::Obj(fields) => spec_lookup(fields@, "title"@),
        _ => None,
    }
}

/// Every row of the array carries its wrapper field.
pub open spec fn all_rows_wrapped(rows: Seq<Json>) -> bool {
    forall|i: int| 0 <= i < rows.len() ==> #[trigger] spec_row_content(rows[i]) is Some
}

/// What `normalize` must return for a given envelope.
pub open spec fn normalize_spec(envelope: Json, r: Result<Option<Vec<Json>>, QueryError>) -> bool {
    match spec_rows(envelope) {
        None => r == Result::<Option<Vec<Json>>, QueryError>::Err(
            QueryError::Protocol(ProtocolViolation::MissingRowArray),
        ),
        Some(rows) => if rows.len() == 0 {
            r == Result::<Option<Vec<Json>>, QueryError>::Ok(None)
        } else if all_rows_wrapped(rows) {
            &&& r matches Ok(Some(out))
            &&& out@.len() == rows.len()
            &&& forall|i: int|
                0 <= i < rows.len() ==> Some(#[trigger] out@[i]) == spec_row_content(rows[i])
        } else {
            r == Result::<Option<Vec<Json>>, QueryError>::Err(
                QueryError::Protocol(ProtocolViolation::MissingRowWrapper),
            )
        },
    }
}

/// Law: an envelope without a `cargoquery` array is answered with the
/// row-array protocol violation, never with the "none found" outcome.
pub proof fn lemma_missing_array_is_error(envelope: Json, r: Result<Option<Vec<Json>>, QueryError>)
    requires
        spec_rows(envelope) is None,
        normalize_spec(envelope, r),
    ensures
        r == Result::<Option<Vec<Json>>, QueryError>::Err(
            QueryError::Protocol(ProtocolViolation::MissingRowArray),
        ),
        r != Result::<Option<Vec<Json>>, QueryError>::Ok(None),
{
}

/// Law: a result row without its wrapper field is answered with the wrapper
/// protocol violation, never with rows and never with "none found".
pub proof fn lemma_missing_wrapper_is_error(
    envelope: Json,
    rows: Seq<Json>,
    r: Result<Option<Vec<Json>>, QueryError>,
)
    requires
        spec_rows(envelope) == Some(rows),
        rows.len() > 0,
        !all_rows_wrapped(rows),
        normalize_spec(envelope, r),
    ensures
        r == Result::<Option<Vec<Json>>, QueryError>::Err(
            QueryError::Protocol(ProtocolViolation::MissingRowWrapper),
        ),
{
}

/// Normalizes a raw response envelope.
///
/// Returns `Ok(None)` for an empty `cargoquery` array, `Ok(Some(rows))` with
/// the wrapper-stripped rows in their original order otherwise, and a
/// protocol-violation error when the envelope has no `cargoquery` array or
/// a row has no wrapper.
pub fn normalize(envelope: Json) -> (r: Result<Option<Vec<Json>>, QueryError>)
    ensures
        normalize_spec(envelope, r),
{
    let ghost genv = envelope;
    let mut env_fields: Vec<(String, Json)> = match envelope {
        Json::Obj(fields) => fields,
        _ => {
            return Err(QueryError::Protocol(ProtocolViolation::MissingRowArray));
        },
    };
    let rows_index = match find_key(&env_fields, "cargoquery") {
        Some(i) => i,
        None => {
            return Err(QueryError::Protocol(ProtocolViolation::MissingRowArray));
        },
    };
    let mut rows: Vec<Json> = match env_fields.remove(rows_index).1 {
        Json::Arr(rows) => rows,
        _ => {
            return Err(QueryError::Protocol(ProtocolViolation::MissingRowArray));
        },
    };
    let ghost grows = rows@;
    if rows.len() == 0 {
        return Ok(None);
    }
    let mut out: Vec<Json> = Vec::new();
    let mut k: usize = 0;
    proof {
        assert(grows.skip(0) =~= grows);
    }
    #[verifier::loop_isolation(false)]
    while rows.len() > 0
        invariant
            spec_rows(genv) == Some(grows),
            grows.len() > 0,
            k + rows@.len() == grows.len(),
            rows@ == grows.skip(k as int),
            out@.len() == k,
            forall|i: int| 0 <= i < k ==> Some(#[trigger] out@[i]) == spec_row_content(grows[i]),
        decreases rows@.len(),
    {
        let row = rows.remove(0);
        let ghost grow = row;
        proof {
            assert(grows.skip(k as int)[0] == grows[k as int]);
            assert(grow == grows[k as int]);
            assert(rows@ =~= grows.skip(k as int + 1));
        }
        let mut row_fields: Vec<(String, Json)> = match row {
            Json::Obj(fields) => fields,
            _ => {
                proof {
                    assert(spec_row_content(grows[k as int]) is None);
                    assert(!all_rows_wrapped(grows));
                }
                return Err(QueryError::Protocol(ProtocolViolation::MissingRowWrapper));
            },
        };
        let ghost grow_fields = row_fields@;
        let title_index = match find_key(&row_fields, "title") {
            Some(i) => i,
            None => {
                proof {
                    assert(spec_row_content(grows[k as int]) is None);
                    assert(!all_rows_wrapped(grows));
                }
                return Err(QueryError::Protocol(ProtocolViolation::MissingRowWrapper));
            },
        };
        let content = row_fields.remove(title_index).1;
        proof {
            assert(content == grow_fields[title_index as int].1);
            assert(spec_row_content(grows[k as int]) == Some(content));
        }
        out.push(content);
        k += 1;
    }
    proof {
        assert(rows@ =~= grows.skip(k as int));
        assert(grows.skip(k as int).len() == grows.len() - k);
        assert(k == grows.len());
        assert forall|i: int| 0 <= i < grows.len() implies #[trigger] spec_row_content(grows[i])
            is Some by {
            assert(Some(out@[i]) == spec_row_content(grows[i]));
        }
        assert(all_rows_wrapped(grows));
    }
    Ok(Some(out))
}

} // verus!
