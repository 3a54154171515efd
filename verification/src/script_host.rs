//! The boundary to the embedded Lua engine. A scripting context is created
//! fresh for every call and never shared, which is what isolates invocations
//! from one another. A Lua table built for the script has its string-keyed
//! scalar contents named by `lua_table_view`, so that marshalling a record in
//! can be specified exactly; what a script evaluates to is opaque (a script
//! may read the clock or draw random numbers), so the evaluation wrapper
//! promises nothing and everything downstream is verified for every outcome.

use vstd::prelude::*;
use crate::record::{distinct_keys, pairs_map, FieldVal, FieldValue};

verus! {

#[verifier::external_type_specification]
#[verifier::external_body]
pub struct ExLua(mlua::Lua);

#[verifier::external_type_specification]
#[verifier::external_body]
pub struct ExLuaTable(mlua::Table);

#[verifier::external_type_specification]
#[verifier::external_body]
pub struct ExLuaValue(mlua::Value);

#[verifier::external_type_specification]
#[verifier::external_body]
pub struct ExLuaError(mlua::Error);

/// The string-keyed scalar entries that a Lua table holds.
pub uninterp spec fn lua_table_view(t: mlua::Table) -> Map<Seq<char>, FieldVal>;

/// Whether a Lua table fits the record shape: every key a (valid UTF-8)
/// string, every value a string, an integer or a boolean.
pub uninterp spec fn lua_table_clean(t: mlua::Table) -> bool;

/// Relies on `mlua::Lua::new`: a fresh interpreter state, sharing no globals
/// and no other state with any earlier one — the sandboxing invariant rests
/// on creating one of these per call.
#[verifier::external_body]
pub(crate) fn lua_new() -> mlua::Lua {
    mlua::Lua::new()
}

/// Relies on `mlua::Lua::create_table` (a newly created table is empty, and
/// fits the record shape) and `mlua::Lua::globals` + `mlua::Table::set`
/// (binds it under the global name `post`, the script's one input). The one
/// wrapper creates the table and binds it in the same interpreter state, so
/// no caller can hand a table to a state it does not belong to — which
/// `mlua` answers with a panic.
#[verifier::external_body]
pub(crate) fn create_post_table(lua: &mlua::Lua) -> (r: Result<mlua::Table, mlua::Error>)
    ensures
        (r matches Ok(t) ==> lua_table_view(t) == Map::<Seq<char>, FieldVal>::empty()
            && lua_table_clean(t)),
{
    let t = lua.create_table()?;
    lua.globals().set("post", &t)?;
    Ok(t)
}

/// Relies on `mlua::Table::raw_set` with a string key and a string value:
/// it binds the key to that value, touches no other entry, and consults no
/// metamethod.
#[verifier::external_body]
pub(crate) fn table_set_str(t: &mut mlua::Table, key: &str, value: &str) -> (r: Result<
    (),
    mlua::Error,
>)
    ensures
        (r is Ok ==> lua_table_view(*final(t)) == lua_table_view(*old(t)).insert(
            key@,
            FieldVal::Str(value@),
        )),
        (r is Ok && lua_table_clean(*old(t)) ==> lua_table_clean(*final(t))),
{
    t.raw_set(key, value)
}

/// Relies on `mlua::Table::raw_set` with a string key and an integer value.
#[verifier::external_body]
pub(crate) fn table_set_int(t: &mut mlua::Table, key: &str, value: i64) -> (r: Result<
    (),
    mlua::Error,
>)
    ensures
        (r is Ok ==> lua_table_view(*final(t)) == lua_table_view(*old(t)).insert(
            key@,
            FieldVal::Int(value as int),
        )),
        (r is Ok && lua_table_clean(*old(t)) ==> lua_table_clean(*final(t))),
{
    t.raw_set(key, value)
}

/// Relies on `mlua::Table::raw_set` with a string key and a boolean value.
#[verifier::external_body]
pub(crate) fn table_set_bool(t: &mut mlua::Table, key: &str, value: bool) -> (r: Result<
    (),
    mlua::Error,
>)
    ensures
        (r is Ok ==> lua_table_view(*final(t)) == lua_table_view(*old(t)).insert(
            key@,
            FieldVal::Bool(value),
        )),
        (r is Ok && lua_table_clean(*old(t)) ==> lua_table_clean(*final(t))),
{
    t.raw_set(key, value)
}

/// Relies on `mlua::Lua::load` and `mlua::Chunk::eval`: evaluates the source
/// as one script body and returns its final expression value. A script can
/// read the clock or draw random numbers, so nothing is promised of the
/// result; callers handle every outcome.
#[verifier::external_body]
pub(crate) fn eval_source(lua: &mlua::Lua, src: &str) -> Result<mlua::Value, mlua::Error> {
    lua.load(src).eval()
}

/// The diagnostic text that an engine error displays as; the display is a
/// function of the error value alone.
pub uninterp spec fn lua_error_text(e: mlua::Error) -> Seq<char>;

/// Relies on the `Display` impl of `mlua::Error` for the diagnostic text.
#[verifier::external_body]
pub(crate) fn lua_error_message(e: &mlua::Error) -> (r: String)
    ensures
        r@ == lua_error_text(*e),
{
    e.to_string()
}

/// What kind of value a script returned, as far as the record contract
/// cares: the nil sentinel, a table, or anything else.
pub enum ReturnedValue {
    Nil,
    Table(mlua::Table),
    Other,
}

/// Relies on matching `mlua::Value`'s variants, one arm each: tells nil and
/// tables apart from every other kind of value.
#[verifier::external_body]
pub(crate) fn value_case(v: mlua::Value) -> ReturnedValue {
    match v {
        mlua::Value::Nil => ReturnedValue::Nil,
        mlua::Value::Table(t) => ReturnedValue::Table(t),
        _ => ReturnedValue::Other,
    }
}

/// Relies on `mlua::Table::pairs` and `mlua::String::to_str`: iterates the
/// entries without metamethods, each key once (a Lua table maps each key to
/// at most one value), converting them one for one to owned pairs; it
/// yields nothing exactly when the table does not fit the record shape —
/// some key is not a string or some value is not a string, an integer or a
/// boolean (a float, a function, a nested table, invalid UTF-8).
#[verifier::external_body]
pub(crate) fn table_pairs(t: &mlua::Table) -> (r: Option<Vec<(String, FieldValue)>>)
    ensures
        r is Some <==> lua_table_clean(*t),
        (r matches Some(ps) ==> distinct_keys(ps@) && pairs_map(ps@) == lua_table_view(*t)),
{
    let mut out: Vec<(String, FieldValue)> = Vec::new();
    for p in t.pairs::<mlua::Value, mlua::Value>() {
        let (k, v) = p.ok()?;
        let key = match k {
            mlua::Value::String(s) => s.to_str().ok()?.as_ref().to_owned(),
            _ => return None,
        };
        out.push((key, match v {
            mlua::Value::Boolean(b) => FieldValue::Bool(b),
            mlua::Value::Integer(i) => FieldValue::Int(i),
            mlua::Value::String(s) => FieldValue::Str(s.to_str().ok()?.as_ref().to_owned()),
            _ => return None,
        }));
    }
    Some(out)
}

} // verus!
