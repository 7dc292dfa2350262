use vstd::prelude::*;

use crate::chars::str_eq;
use crate::errors::Error;
use crate::format::{json_escape, json_string, push_json_string};
use crate::poller::{ResultField, ResultRow};

verus! {

/// The sub-commands of the query command.
#[derive(Debug, Clone, PartialEq, Eq, Structural)]
pub enum Commands {
    History,
}

impl Commands {
    pub open spec fn describe_spec(&self) -> Seq<char> {
        match self {
            Commands::History => "history"@,
        }
    }

    /// The sub-command's name, for display.
    pub fn describe(&self) -> (r: &'static str)
        ensures
            r@ == self.describe_spec(),
    {
        match self {
            Commands::History => "history",
        }
    }
}

/// The arguments of the query command: a file (or stored query name) to read
/// the query text from, the sources to query, the time window, and an
/// optional sub-command.
#[derive(Debug, Clone, PartialEq, Eq)]
pub struct Cmd {
    pub file_or_query_name: Option<String>,
    pub group_names: Vec<String>,
    pub start_time: Option<i64>,
    pub end_time: Option<i64>,
    pub command: Option<Commands>,
}

/// The start of the query window: the given start time, or thirty time
/// units before now (biasing an unbounded query toward returning
/// something), when that fits the millisecond scale.
pub open spec fn resolved_start(start_time: Option<i64>, now_s: int) -> Option<int> {
    match start_time {
        Some(t) => Some(t as int),
        None => {
            let v = (now_s - 30) * 1000;
            if i64::MIN <= v <= i64::MAX {
                Some(v)
            } else {
                None
            }
        },
    }
}

/// The end of the query window: the given end time, or now.
pub open spec fn resolved_end(end_time: Option<i64>, now_s: int) -> Option<int> {
    match end_time {
        Some(t) => Some(t as int),
        None => {
            let v = now_s * 1000;
            if i64::MIN <= v <= i64::MAX {
                Some(v)
            } else {
                None
            }
        },
    }
}

/// Fills in the defaults of the query window from the clock: an absent start
/// becomes thirty time units before now, an absent end becomes now, both in
/// milliseconds. Yields nothing only when the clock value does not fit the
/// millisecond scale.
pub fn resolve_query_window(start_time: Option<i64>, end_time: Option<i64>, now_s: i64) -> (r:
    Option<(i64, i64)>)
    ensures
        match (r, resolved_start(start_time, now_s as int), resolved_end(end_time, now_s as int)) {
            (Some(w), Some(s), Some(e)) => w.0 == s && w.1 == e,
            (None, _, _) => resolved_start(start_time, now_s as int) is None || resolved_end(
                end_time,
                now_s as int,
            ) is None,
            _ => false,
        },
{
    let start: i64 = match start_time {
        Some(t) => t,
        None => {
            let base = match now_s.checked_sub(30) {
                Some(b) => b,
                None => {
                    return None;
                },
            };
            match base.checked_mul(1000) {
                Some(v) => v,
                None => {
                    return None;
                },
            }
        },
    };
    let end: i64 = match end_time {
        Some(t) => t,
        None => {
            match now_s.checked_mul(1000) {
                Some(v) => v,
                None => {
                    return None;
                },
            }
        },
    };
    Some((start, end))
}

/// Accepts a submission only when the remote side returned a job id: an
/// absent id is the protocol violation `SubmissionError`.
pub fn confirm_submission(query_id: Option<String>) -> (r: Result<String, Error>)
    ensures
        match query_id {
            Some(id) => r == Ok::<String, Error>(id),
            None => r == Err::<String, Error>(Error::SubmissionError),
        },
{
    match query_id {
        Some(id) => Ok(id),
        None => Err(Error::SubmissionError),
    }
}

/// The value a result field contributes: its text, or empty when the remote
/// side sent none.
pub open spec fn field_value(f: ResultField) -> Seq<char> {
    match f.value {
        Some(v) => v@,
        None => Seq::empty(),
    }
}

/// The name-value pairs a result row contributes to the output, in order:
/// fields without a name are dropped, and so is the reserved internal
/// pointer field `@ptr`; no other transformation occurs.
pub open spec fn row_pairs(fields: Seq<ResultField>) -> Seq<(Seq<char>, Seq<char>)>
    decreases fields.len(),
{
    if fields.len() == 0 {
        Seq::empty()
    } else {
        let rest = row_pairs(fields.drop_first());
        match fields[0].field {
            Some(name) => if name@ == "@ptr"@ {
                rest
            } else {
                seq![(name@, field_value(fields[0]))] + rest
            },
            None => rest,
        }
    }
}

/// The reserved internal pointer field never reaches the output: whatever
/// the remote side returned, no pair a result row yields is keyed `@ptr`.
pub proof fn lemma_no_pointer_field_in_output(fields: Seq<ResultField>)
    ensures
        forall|i: int| 0 <= i < row_pairs(fields).len() ==> (#[trigger] row_pairs(fields)[i]).0
            != "@ptr"@,
    decreases fields.len(),
{
    if fields.len() > 0 {
        lemma_no_pointer_field_in_output(fields.drop_first());
        let rest = row_pairs(fields.drop_first());
        assert forall|i: int| 0 <= i < row_pairs(fields).len() implies (#[trigger] row_pairs(
            fields,
        )[i]).0 != "@ptr"@ by {
            match fields[0].field {
                Some(name) => {
                    if name@ == "@ptr"@ {
                        assert(row_pairs(fields)[i] == rest[i]);
                    } else {
                        if i > 0 {
                            assert(row_pairs(fields)[i] == rest[i - 1]);
                        }
                    }
                },
                None => {
                    assert(row_pairs(fields)[i] == rest[i]);
                },
            }
        }
    }
}

/// The members of a JSON object, comma-separated, each a quoted name and a
/// quoted value.
pub open spec fn json_members(pairs: Seq<(Seq<char>, Seq<char>)>) -> Seq<char>
    decreases pairs.len(),
{
    if pairs.len() == 0 {
        Seq::empty()
    } else if pairs.len() == 1 {
        json_member(pairs[0])
    } else {
        json_member(pairs[0]) + seq![','] + json_members(pairs.drop_first())
    }
}

pub open spec fn json_member(p: (Seq<char>, Seq<char>)) -> Seq<char> {
    json_string(p.0) + seq![':'] + json_string(p.1)
}

/// The JSON object of a row's pairs, in their order.
pub open spec fn json_object(pairs: Seq<(Seq<char>, Seq<char>)>) -> Seq<char> {
    seq!['{'] + json_members(pairs) + seq!['}']
}

/// Appending one member to a member list appends a comma (unless the list
/// was empty) and the member.
proof fn lemma_json_members_push(pairs: Seq<(Seq<char>, Seq<char>)>, p: (Seq<char>, Seq<char>))
    ensures
        json_members(pairs.push(p)) == if pairs.len() == 0 {
            json_member(p)
        } else {
            json_members(pairs) + seq![','] + json_members(seq![p])
        },
    decreases pairs.len(),
{
    if pairs.len() == 0 {
        assert(pairs.push(p) =~= seq![p]);
    } else {
        lemma_json_members_push(pairs.drop_first(), p);
        assert(pairs.push(p).drop_first() =~= pairs.drop_first().push(p));
        assert(pairs.push(p)[0] == pairs[0]);
        if pairs.len() == 1 {
            assert(pairs.drop_first().push(p) =~= seq![p]);
            assert(json_members(pairs.push(p)) == json_member(pairs[0]) + seq![','] + json_members(
                seq![p],
            ));
        } else {
            assert(json_member(pairs[0]) + seq![','] + (json_members(pairs.drop_first())
                + seq![','] + json_members(seq![p])) =~= (json_member(pairs[0]) + seq![',']
                + json_members(pairs.drop_first())) + seq![','] + json_members(seq![p]));
        }
    }
}

/// Renders one completed-query result row as one JSON object: the row's
/// named fields in order, values as text, empty when absent, and the
/// reserved internal pointer field left out.
pub fn format_query_row(row: &ResultRow) -> (r: String)
    ensures
        r@ == json_object(row_pairs(row.fields@)),
{
    let mut out = String::new();
    out.push('{');
    let n = row.fields.len();
    let mut i: usize = 0;
    let mut first = true;
    while i < n
        invariant
            i <= n,
            n == row.fields@.len(),
            first <==> row_pairs(row.fields@.take(i as int)).len() == 0,
            out@ == seq!['{'] + json_members(row_pairs(row.fields@.take(i as int))),
        decreases n - i,
    {
        let ghost pre = row_pairs(row.fields@.take(i as int));
        proof {
            assert(row.fields@.take(i + 1) =~= row.fields@.take(i as int).push(
                row.fields@[i as int],
            ));
            lemma_row_pairs_push(row.fields@.take(i as int), row.fields@[i as int]);
        }
        let f = &row.fields[i];
        match &f.field {
            Some(name) => {
                if !str_eq(name.as_str(), "@ptr") {
                    if !first {
                        out.push(',');
                    }
                    push_json_string(&mut out, name.as_str());
                    out.push(':');
                    match &f.value {
                        Some(v) => push_json_string(&mut out, v.as_str()),
                        None => push_json_string(&mut out, ""),
                    }
                    proof {
                        let p = (name@, field_value(row.fields@[i as int]));
                        assert(row_pairs(row.fields@.take(i + 1)) =~= pre.push(p));
                        lemma_json_members_push(pre, p);
                        assert(json_members(seq![p]) == json_member(p));
                        assert(field_value(row.fields@[i as int]) == match row.fields@[
                            i as int
                        ].value {
                            Some(v) => v@,
                            None => Seq::<char>::empty(),
                        });
                        if row.fields@[i as int].value is None {
                            reveal_strlit("");
                            assert(""@ =~= Seq::<char>::empty());
                            assert(json_escape(Seq::<char>::empty()) == Seq::<char>::empty());
                            assert(json_string(""@) =~= json_string(Seq::<char>::empty()));
                        }
                        assert(out@ =~= seq!['{'] + json_members(
                            row_pairs(row.fields@.take(i + 1)),
                        ));
                    }
                    first = false;
                }
            },
            None => {},
        }
        i = i + 1;
    }
    out.push('}');
    proof {
        assert(row.fields@.take(n as int) =~= row.fields@);
        assert(out@ =~= seq!['{'] + json_members(row_pairs(row.fields@)) + seq!['}']);
    }
    out
}

/// Appending one field to a row extends its pairs by that field's pair,
/// unless the field is nameless or the reserved pointer field.
proof fn lemma_row_pairs_push(fields: Seq<ResultField>, f: ResultField)
    ensures
        row_pairs(fields.push(f)) == match f.field {
            Some(name) => if name@ == "@ptr"@ {
                row_pairs(fields)
            } else {
                row_pairs(fields).push((name@, field_value(f)))
            },
            None => row_pairs(fields),
        },
    decreases fields.len(),
{
    if fields.len() == 0 {
        assert(fields.push(f).drop_first() =~= fields);
        assert(fields.push(f)[0] == f);
        match f.field {
            Some(name) => {
                if name@ != "@ptr"@ {
                    assert(seq![(name@, field_value(f))] + row_pairs(fields) =~= row_pairs(
                        fields,
                    ).push((name@, field_value(f))));
                }
            },
            None => {},
        }
    } else {
        lemma_row_pairs_push(fields.drop_first(), f);
        assert(fields.push(f).drop_first() =~= fields.drop_first().push(f));
        assert(fields.push(f)[0] == fields[0]);
        match f.field {
            Some(name) => {
                if name@ != "@ptr"@ {
                    match fields[0].field {
                        Some(n0) => {
                            if n0@ != "@ptr"@ {
                                assert(seq![(n0@, field_value(fields[0]))] + row_pairs(
                                    fields.drop_first(),
                                ).push((name@, field_value(f))) =~= (seq![
                                    (n0@, field_value(fields[0])),
                                ] + row_pairs(fields.drop_first())).push((name@, field_value(f))));
                            }
                        },
                        None => {},
                    }
                }
            },
            None => {},
        }
    }
}

} // verus!
