//! The structured values a runtime parameter can take, and their rendering
//! in the external CLI's literal syntax.

use vstd::prelude::*;
use vstd::string::*;
use crate::text::dec_int;

verus! {

broadcast use vstd::std_specs::vec::axiom_vec_index_decreases;

/// A dynamically typed structured value: the payload of a parameter-set
/// request. Maps keep their entries in insertion order.
#[derive(Debug)]
pub enum ParamValue {
    Null,
    Bool(bool),
    Int(i64),
    Text(String),
    List(Vec<ParamValue>),
    Object(Vec<(String, ParamValue)>),
}

/// The CLI rendering of a value: `true`/`false`/`null` literals, decimal
/// integers, text unchanged (no quoting), lists as `[a, b]` and maps as
/// `{k: v, ...}`, elements rendered recursively in order.
pub open spec fn ser(v: ParamValue) -> Seq<char>
    decreases v, 0int, 0int,
{
    match v {
        ParamValue::Null => "null"@,
        ParamValue::Bool(b) => if b {
            "true"@
        } else {
            "false"@
        },
        ParamValue::Int(i) => dec_int(i as int),
        ParamValue::Text(s) => s@,
        ParamValue::List(elems) => "["@ + ser_items(elems, 0) + "]"@,
        ParamValue::Object(entries) => "{"@ + ser_entries(entries, 0) + "}"@,
    }
}

/// The renderings of `elems[i..]`, joined with `, `.
pub open spec fn ser_items(elems: Vec<ParamValue>, i: int) -> Seq<char>
    decreases elems, 1int, elems.len() - i,
{
    if i < 0 || i >= elems.len() {
        Seq::<char>::empty()
    } else if i == elems.len() - 1 {
        ser(elems[i])
    } else {
        ser(elems[i]) + ", "@ + ser_items(elems, i + 1)
    }
}

/// The renderings of the entries `entries[i..]` as `key: value`, joined
/// with `, `.
pub open spec fn ser_entries(entries: Vec<(String, ParamValue)>, i: int) -> Seq<char>
    decreases entries, 1int, entries.len() - i,
{
    if i < 0 || i >= entries.len() {
        Seq::<char>::empty()
    } else if i == entries.len() - 1 {
        entries[i].0@ + ": "@ + ser(entries[i].1)
    } else {
        entries[i].0@ + ": "@ + ser(entries[i].1) + ", "@ + ser_entries(entries, i + 1)
    }
}

/// Renders a value in the external CLI's literal syntax.
pub fn value_to_cli_string(value: &ParamValue) -> (s: String)
    ensures
        s@ == ser(*value),
    decreases *value, 0int, 0int,
{
    match value {
        ParamValue::Null => String::from_str("null"),
        ParamValue::Bool(b) => if *b {
            String::from_str("true")
        } else {
            String::from_str("false")
        },
        ParamValue::Int(i) => crate::text::i64_to_dec(*i),
        ParamValue::Text(s) => s.clone(),
        ParamValue::List(elems) => {
            let mut out = String::from_str("[");
            let inner = items_to_cli_string(elems, 0);
            out.append(inner.as_str());
            out.append("]");
            out
        },
        ParamValue::Object(entries) => {
            let mut out = String::from_str("{");
            let inner = entries_to_cli_string(entries, 0);
            out.append(inner.as_str());
            out.append("}");
            out
        },
    }
}

fn items_to_cli_string(elems: &Vec<ParamValue>, i: usize) -> (s: String)
    ensures
        s@ == ser_items(*elems, i as int),
    decreases *elems, 1int, elems.len() - i,
{
    if i >= elems.len() {
        String::new()
    } else {
        let mut out = value_to_cli_string(&elems[i]);
        if i + 1 < elems.len() {
            out.append(", ");
            let rest = items_to_cli_string(elems, i + 1);
            out.append(rest.as_str());
        }
        out
    }
}

fn entries_to_cli_string(entries: &Vec<(String, ParamValue)>, i: usize) -> (s: String)
    ensures
        s@ == ser_entries(*entries, i as int),
    decreases *entries, 1int, entries.len() - i,
{
    if i >= entries.len() {
        String::new()
    } else {
        let mut out = entries[i].0.clone();
        out.append(": ");
        let val = value_to_cli_string(&entries[i].1);
        out.append(val.as_str());
        if i + 1 < entries.len() {
            out.append(", ");
            let rest = entries_to_cli_string(entries, i + 1);
            out.append(rest.as_str());
        }
        out
    }
}

} // verus!
