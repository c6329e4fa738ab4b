//! The query builder: turns a structured query description into the
//! wire-level parameter list of a cargo query.
//!
//! The parameter list always carries `action=cargoquery`, the table and field
//! expressions, and the fixed page-size ceiling; the optional filter and join
//! condition are appended only when supplied.  Table, field and condition
//! expressions follow the remote schema's own mini-syntax and pass through
//! verbatim: the builder neither validates nor escapes them.

use vstd::prelude::*;

verus! {

/// Wire-level request parameters: key/value pairs in insertion order.
pub type Params = Vec<(String, String)>;

/// The fixed result-size ceiling of one logical query.
pub const PAGE_LIMIT: &'static str = "500";

/// A parameter list as a sequence of (key, value) character sequences.
pub open spec fn params_view(p: Params) -> Seq<(Seq<char>, Seq<char>)> {
    p@.map_values(|kv: (String, String)| (kv.0@, kv.1@))
}

/// View of an optional borrowed string.
pub open spec fn opt_view(o: Option<&str>) -> Option<Seq<char>> {
    match o {
        Some(s) => Some(s@),
        None => None,
    }
}

/// The canonical parameter sequence of a cargo query: the four required
/// pairs, then `where` and `join_on`, each appended only when supplied.
pub open spec fn spec_params(
    tables: Seq<char>,
    fields: Seq<char>,
    where_condition: Option<Seq<char>>,
    join_on: Option<Seq<char>>,
) -> Seq<(Seq<char>, Seq<char>)> {
    let base = seq![
        ("action"@, "cargoquery"@),
        ("tables"@, tables),
        ("fields"@, fields),
        ("limit"@, "500"@),
    ];
    let with_where = match where_condition {
        Some(w) => base.push(("where"@, w)),
        None => base,
    };
    match join_on {
        Some(j) => with_where.push(("join_on"@, j)),
        None => with_where,
    }
}

/// Builds the wire-level parameters of one cargo query.  Pure: the result is
/// exactly the canonical sequence for the given inputs.
pub fn build_params(
    tables: &str,
    fields: &str,
    where_condition: Option<&str>,
    join_on: Option<&str>,
) -> (r: Params)
    ensures
        params_view(r) == spec_params(
            tables@,
            fields@,
            opt_view(where_condition),
            opt_view(join_on),
        ),
{
    let mut r: Params = Vec::new();
    r.push(("action".to_owned(), "cargoquery".to_owned()));
    r.push(("tables".to_owned(), tables.to_owned()));
    r.push(("fields".to_owned(), fields.to_owned()));
    r.push(("limit".to_owned(), PAGE_LIMIT.to_owned()));
    if let Some(w) = where_condition {
        r.push(("where".to_owned(), w.to_owned()));
    }
    if let Some(j) = join_on {
        r.push(("join_on".to_owned(), j.to_owned()));
    }
    proof {
        assert(params_view(r) =~= spec_params(
            tables@,
            fields@,
            opt_view(where_condition),
            opt_view(join_on),
        ));
    }
    r
}

/// Law: with neither optional condition the parameters are exactly
/// `action=cargoquery`, the tables, the fields and `limit=500`, and no
/// `where` or `join_on` key appears.
pub proof fn lemma_params_no_options(tables: Seq<char>, fields: Seq<char>)
    ensures
        ({
            let p = spec_params(tables, fields, None, None);
            &&& p.len() == 4
            &&& p[0] == ("action"@, "cargoquery"@)
            &&& p[1] == ("tables"@, tables)
            &&& p[2] == ("fields"@, fields)
            &&& p[3] == ("limit"@, "500"@)
            &&& forall|i: int|
                0 <= i < p.len() ==> (#[trigger] p[i]).0 != "where"@ && p[i].0 != "join_on"@
        }),
{
    reveal_strlit("action");
    reveal_strlit("tables");
    reveal_strlit("fields");
    reveal_strlit("limit");
    reveal_strlit("where");
    reveal_strlit("join_on");
    let p = spec_params(tables, fields, None, None);
    assert forall|i: int| 0 <= i < p.len() implies (#[trigger] p[i]).0 != "where"@ && p[i].0
        != "join_on"@ by {
        assert("limit"@[0] == 'l' && "where"@[0] == 'w');
        assert("action"@.len() == 6 && "tables"@.len() == 6 && "fields"@.len() == 6);
        assert("where"@.len() == 5 && "join_on"@.len() == 7 && "limit"@.len() == 5);
        assert(p[0].0 == "action"@ && p[1].0 == "tables"@ && p[2].0 == "fields"@ && p[3].0
            == "limit"@);
    }
}

/// Law: supplying the filter appends exactly one `where` pair with the given
/// value; supplying the join condition appends exactly one `join_on` pair;
/// supplying both appends both, the other pairs unchanged either way.
pub proof fn lemma_params_options(
    tables: Seq<char>,
    fields: Seq<char>,
    w: Seq<char>,
    j: Seq<char>,
)
    ensures
        ({
            let base = spec_params(tables, fields, None, None);
            let pw = spec_params(tables, fields, Some(w), None);
            let pj = spec_params(tables, fields, None, Some(j));
            let pwj = spec_params(tables, fields, Some(w), Some(j));
            &&& pw == base.push(("where"@, w))
            &&& pj == base.push(("join_on"@, j))
            &&& pwj == base.push(("where"@, w)).push(("join_on"@, j))
            &&& forall|i: int| 0 <= i < 4 ==> (#[trigger] pw[i]).0 != "where"@
            &&& forall|i: int| 0 <= i < pw.len() ==> (#[trigger] pw[i]).0 != "join_on"@
            &&& forall|i: int| 0 <= i < 4 ==> (#[trigger] pj[i]).0 != "join_on"@
            &&& forall|i: int| 0 <= i < pj.len() ==> (#[trigger] pj[i]).0 != "where"@
            &&& forall|i: int| 0 <= i < pwj.len() && i != 4 ==> (#[trigger] pwj[i]).0 != "where"@
            &&& forall|i: int| 0 <= i < pwj.len() && i != 5 ==> (#[trigger] pwj[i]).0 != "join_on"@
        }),
{
    lemma_params_no_options(tables, fields);
    reveal_strlit("where");
    reveal_strlit("join_on");
    let base = spec_params(tables, fields, None, None);
    let pw = spec_params(tables, fields, Some(w), None);
    let pj = spec_params(tables, fields, None, Some(j));
    let pwj = spec_params(tables, fields, Some(w), Some(j));
    assert("where"@.len() == 5 && "join_on"@.len() == 7);
    assert forall|i: int| 0 <= i < 4 implies (#[trigger] pw[i]).0 != "where"@ by {
        assert(pw[i] == base[i]);
    }
    assert forall|i: int| 0 <= i < pw.len() implies (#[trigger] pw[i]).0 != "join_on"@ by {
        if i < 4 {
            assert(pw[i] == base[i]);
        } else {
            assert(pw[i].0 == "where"@);
        }
    }
    assert forall|i: int| 0 <= i < 4 implies (#[trigger] pj[i]).0 != "join_on"@ by {
        assert(pj[i] == base[i]);
    }
    assert forall|i: int| 0 <= i < pj.len() implies (#[trigger] pj[i]).0 != "where"@ by {
        if i < 4 {
            assert(pj[i] == base[i]);
        } else {
            assert(pj[i].0 == "join_on"@);
        }
    }
    assert forall|i: int| 0 <= i < pwj.len() && i != 4 implies (#[trigger] pwj[i]).0
        != "where"@ by {
        if i < 4 {
            assert(pwj[i] == base[i]);
        } else {
            assert(pwj[i].0 == "join_on"@);
        }
    }
    assert forall|i: int| 0 <= i < pwj.len() && i != 5 implies (#[trigger] pwj[i]).0
        != "join_on"@ by {
        if i < 4 {
            assert(pwj[i] == base[i]);
        } else {
            assert(pwj[i].0 == "where"@);
        }
    }
}

} // verus!
