//! The execution engine: one call runs one filter on one record in a fresh,
//! isolated scripting context. The record is marshalled into a Lua table
//! bound to the global `post`, the script is evaluated, and its return value
//! is marshalled back: nil means the record is suppressed, a table of the
//! record shape replaces it, anything else is a marshalling error.

use vstd::prelude::*;
use crate::errors::RunError;
use crate::loader::Filter;
use crate::record::{
    distinct_keys, lemma_pairs_map_contains, lemma_pairs_map_take_step, pairs_map, FieldValue,
    Tweet,
};
use crate::script_host::{
    create_post_table, eval_source, lua_error_message, lua_error_text, lua_new, lua_table_clean,
    lua_table_view, table_pairs, table_set_bool, table_set_int, table_set_str, value_case,
    ReturnedValue,
};

verus! {

/// Marshals the record into an empty Lua table: on success the table holds
/// exactly the record's fields, no more and no less, and still fits the
/// record shape.
pub fn fill_post_table(t: &mut mlua::Table, tweet: &Tweet) -> (r: Result<(), RunError>)
    requires
        lua_table_view(*old(t)) == Map::<Seq<char>, crate::record::FieldVal>::empty(),
        lua_table_clean(*old(t)),
    ensures
        (r is Ok ==> lua_table_view(*final(t)) == tweet.as_map() && lua_table_clean(*final(t))),
        (r matches Err(e) ==> e is MarshalError),
{
    let n = tweet.fields.len();
    for i in 0..n
        invariant
            n == tweet.fields@.len(),
            lua_table_view(*t) == pairs_map(tweet.fields@.take(i as int)),
            lua_table_clean(*t),
    {
        let key = &tweet.fields[i].0;
        let outcome = match &tweet.fields[i].1 {
            FieldValue::Str(s) => table_set_str(t, key.as_str(), s.as_str()),
            FieldValue::Int(v) => table_set_int(t, key.as_str(), *v),
            FieldValue::Bool(b) => table_set_bool(t, key.as_str(), *b),
        };
        if outcome.is_err() {
            return Err(RunError::MarshalError);
        }
        proof {
            lemma_pairs_map_take_step(tweet.fields@, i as int);
        }
    }
    proof {
        assert(tweet.fields@.take(n as int) =~= tweet.fields@);
    }
    Ok(())
}

/// Builds a record from key/value pairs read back from the script. Succeeds
/// exactly when the keys are distinct, and then the record's value is the
/// map the pairs denote; otherwise the shape is rejected as a marshalling
/// error.
pub fn tweet_from_fields(pairs: Vec<(String, FieldValue)>) -> (r: Result<Tweet, RunError>)
    ensures
        r is Ok <==> distinct_keys(pairs@),
        (r matches Ok(t) ==> t.wf() && t.as_map() == pairs_map(pairs@)),
        (r matches Err(e) ==> e is MarshalError),
{
    let mut t = Tweet::new();
    let n = pairs.len();
    for i in 0..n
        invariant
            n == pairs@.len(),
            distinct_keys(pairs@.take(i as int)),
            t.wf(),
            t.as_map() == pairs_map(pairs@.take(i as int)),
            forall|k: Seq<char>|
                t.as_map().dom().contains(k) <==> (exists|j: int|
                    0 <= j < i && (#[trigger] pairs@[j]).0@ == k),
    {
        let key = &pairs[i].0;
        if t.get_field(key.as_str()).is_some() {
            proof {
                let k = pairs@[i as int].0@;
                let j = choose|j: int| 0 <= j < i && (#[trigger] pairs@[j]).0@ == k;
                assert(!distinct_keys(pairs@)) by {
                    assert(pairs@[j].0@ == pairs@[i as int].0@);
                }
            }
            return Err(RunError::MarshalError);
        }
        t.set_field(key.clone(), pairs[i].1.clone());
        proof {
            lemma_pairs_map_take_step(pairs@, i as int);
            assert(distinct_keys(pairs@.take(i + 1))) by {
                assert(forall|m: int|
                    0 <= m < i ==> pairs@.take(i + 1)[m] == (#[trigger] pairs@[m]));
                assert(pairs@.take(i + 1)[i as int] == pairs@[i as int]);
            }
            lemma_pairs_map_contains(pairs@.take(i + 1), pairs@[i as int].0@);
        }
    }
    proof {
        assert(pairs@.take(n as int) =~= pairs@);
    }
    Ok(t)
}

/// Classifies what the script returned. Only the null sentinel means the
/// record is suppressed; a table that fits the record shape becomes the
/// record holding exactly its entries; a table that does not, and any other
/// value, fails as a marshalling error.
pub fn decode_returned(v: ReturnedValue) -> (r: Result<Option<Tweet>, RunError>)
    ensures
        v is Nil ==> (r matches Ok(o) && o is None),
        v is Other ==> (r matches Err(e) && e is MarshalError),
        (r matches Ok(Some(t)) ==> t.wf() && v is Table),
        (v matches ReturnedValue::Table(t) ==> (r is Ok <==> lua_table_clean(t))),
        (v matches ReturnedValue::Table(t) ==> (r matches Ok(o) ==> (o matches Some(tw)
            && tw.as_map() == lua_table_view(t)))),
        (r matches Err(e) ==> e is MarshalError),
{
    match v {
        ReturnedValue::Nil => Ok(None),
        ReturnedValue::Other => Err(RunError::MarshalError),
        ReturnedValue::Table(t) => match table_pairs(&t) {
            Some(pairs) => match tweet_from_fields(pairs) {
                Ok(tweet) => Ok(Some(tweet)),
                Err(e) => Err(e),
            },
            None => Err(RunError::MarshalError),
        },
    }
}

/// Maps an engine evaluation failure to the library's error: a script
/// failure always surfaces to the caller as `ScriptError` carrying exactly
/// the engine's diagnostic, never as success and never as a marshalling
/// error.
pub fn script_error_of(e: &mlua::Error) -> (r: RunError)
    ensures
        (r matches RunError::ScriptError(m) && m@ == lua_error_text(*e)),
{
    RunError::ScriptError(lua_error_message(e))
}

impl Filter {
    /// Runs the filter on the given post. A fresh scripting context is
    /// created for this one call and discarded afterwards, so no state of
    /// any earlier invocation is visible and none survives: calls are
    /// isolated from one another, and neither the filter nor the input
    /// record is ever mutated. The script sees the record under the global
    /// `post`; nil back means the record is suppressed, a well-formed table
    /// back replaces it, any other value is a `MarshalError`, and a script
    /// failure is a `ScriptError` carrying the diagnostic. What a script
    /// evaluates to is opaque to contracts, so each of these guarantees is
    /// stated and verified one call down — `fill_post_table` for what goes
    /// in, `script_error_of` for evaluation failures, and `decode_returned`
    /// for what every possible returned value maps to.
    pub fn run(&self, tweet: &Tweet) -> (r: Result<Option<Tweet>, RunError>)
        requires
            tweet.wf(),
        ensures
            (r matches Ok(Some(out)) ==> out.wf()),
    {
        let lua = lua_new();
        let mut table = match create_post_table(&lua) {
            Ok(t) => t,
            Err(_) => {
                return Err(RunError::MarshalError);
            },
        };
        if let Err(e) = fill_post_table(&mut table, tweet) {
            return Err(e);
        }
        let value = match eval_source(&lua, self.src.as_str()) {
            Ok(v) => v,
            Err(e) => {
                return Err(script_error_of(&e));
            },
        };
        decode_returned(value_case(value))
    }
}

} // verus!
