//! The script side of a sprite: value marshaling between the embedded Lua
//! interpreter and the host, and the validation of the two callback returns.
//!
//! The host invokes two callbacks that every script must define at top level:
//! `init() -> (image_paths, width, height)` once at construction, and
//! `tick(screen_w, screen_h) -> (texture_index, x, y)` once per frame.
//! Raw interpreter values are first modeled as [`ScriptVal`]; the validation
//! of a modeled return is ordinary verified code with an exact contract.

use vstd::prelude::*;

use crate::errors::SpriteError;

verus! {

/// A script value as the host sees it: an integer, a string, the array part
/// of a table, or something of no use to the callback contracts.
#[derive(Debug)]
pub enum ScriptVal {
    Int(i64),
    Str(String),
    List(Vec<ScriptVal>),
    Other,
}

/// What a sprite's `init` callback promised: the ordered image paths and the
/// window size.
#[derive(Debug, Clone)]
pub struct InitReturn {
    pub image_paths: Vec<String>,
    pub width: u32,
    pub height: u32,
}

/// What a sprite does in one frame: show texture `texture_index` with the
/// window moved to absolute screen position `(x, y)`.
#[derive(Debug, Clone, Copy, PartialEq, Eq, Structural)]
pub struct TickAction {
    pub texture_index: usize,
    pub x: i32,
    pub y: i32,
}

/// The integer carried by a value, `0` for the other variants.
pub open spec fn int_of(v: ScriptVal) -> i64 {
    match v {
        ScriptVal::Int(n) => n,
        _ => 0,
    }
}

/// The characters carried by a string value, empty for the other variants.
pub open spec fn str_of(v: ScriptVal) -> Seq<char> {
    match v {
        ScriptVal::Str(s) => s@,
        _ => Seq::empty(),
    }
}

/// The items carried by a list value, empty for the other variants.
pub open spec fn items_of(v: ScriptVal) -> Seq<ScriptVal> {
    match v {
        ScriptVal::List(items) => items@,
        _ => Seq::empty(),
    }
}

/// The value is a list and every item of it is a string.
pub open spec fn is_path_list(v: ScriptVal) -> bool {
    &&& v matches ScriptVal::List(_)
    &&& forall|i: int|
        0 <= i < items_of(v).len() ==> #[trigger] items_of(v)[i] matches ScriptVal::Str(_)
}

/// The value is an integer that fits a `u32`, as a window dimension must.
pub open spec fn is_dimension(v: ScriptVal) -> bool {
    v matches ScriptVal::Int(n) && 0 <= n <= u32::MAX
}

/// The value is an integer that fits an `i32`, as a screen coordinate must.
pub open spec fn is_coordinate(v: ScriptVal) -> bool {
    v matches ScriptVal::Int(n) && i32::MIN <= n <= i32::MAX
}

/// An `init` return is well formed: exactly three values, a list of path
/// strings, then two non-negative dimensions.
pub open spec fn init_values_ok(vals: Seq<ScriptVal>) -> bool {
    &&& vals.len() == 3
    &&& is_path_list(vals[0])
    &&& is_dimension(vals[1])
    &&& is_dimension(vals[2])
}

/// A `tick` return is well formed for a sprite with `n_textures` textures:
/// exactly three integers, an in-range texture index then two coordinates.
pub open spec fn tick_values_ok(vals: Seq<ScriptVal>, n_textures: int) -> bool {
    &&& vals.len() == 3
    &&& (vals[0] matches ScriptVal::Int(i) && 0 <= i < n_textures)
    &&& is_coordinate(vals[1])
    &&& is_coordinate(vals[2])
}

/// Validates the values an `init` callback returned.
///
/// Accepts exactly the well-formed returns: a list of path strings and two
/// dimensions that fit `u32`. Anything else is a contract error, never a
/// panic. An empty path list and zero dimensions are accepted here: a
/// sprite without textures simply rejects every later tick, and a zero
/// window size is left to the windowing layer.
pub fn parse_init(vals: &Vec<ScriptVal>) -> (r: Result<InitReturn, SpriteError>)
    ensures
        r is Ok <==> init_values_ok(vals@),
        r matches Ok(init) ==> {
            &&& init.width == int_of(vals@[1])
            &&& init.height == int_of(vals@[2])
            &&& init.image_paths@.len() == items_of(vals@[0]).len()
            &&& forall|i: int|
                0 <= i < init.image_paths@.len() ==> #[trigger] init.image_paths@[i]@ == str_of(
                    items_of(vals@[0])[i],
                )
        },
        r matches Err(e) ==> e matches SpriteError::ScriptContract(_),
{
    if vals.len() != 3 {
        return Err(contract_error("init must return exactly (image_paths, width, height)"));
    }
    let width: u32 = match &vals[1] {
        ScriptVal::Int(n) => {
            if *n < 0 || *n > u32::MAX as i64 {
                return Err(contract_error("init width must be an integer that fits u32"));
            }
            *n as u32
        },
        _ => {
            return Err(contract_error("init width must be an integer"));
        },
    };
    let height: u32 = match &vals[2] {
        ScriptVal::Int(n) => {
            if *n < 0 || *n > u32::MAX as i64 {
                return Err(contract_error("init height must be an integer that fits u32"));
            }
            *n as u32
        },
        _ => {
            return Err(contract_error("init height must be an integer"));
        },
    };
    let items: &Vec<ScriptVal> = match &vals[0] {
        ScriptVal::List(items) => items,
        _ => {
            return Err(contract_error("init image paths must be a table of strings"));
        },
    };
    let mut image_paths: Vec<String> = Vec::new();
    let mut i: usize = 0;
    while i < items.len()
        invariant
            i <= items@.len(),
            vals@[0] matches ScriptVal::List(its) && its@ == items@,
            image_paths@.len() == i,
            forall|j: int|
                0 <= j < i ==> #[trigger] items@[j] matches ScriptVal::Str(_),
            forall|j: int|
                0 <= j < i ==> #[trigger] image_paths@[j]@ == str_of(items@[j]),
        decreases items@.len() - i,
    {
        match &items[i] {
            ScriptVal::Str(s) => image_paths.push(s.clone()),
            _ => {
                return Err(contract_error("init image paths must be a table of strings"));
            },
        }
        i += 1;
    }
    Ok(InitReturn { image_paths, width, height })
}

/// Validates the values a `tick` callback returned, against the number of
/// textures the sprite holds.
///
/// Accepts exactly the well-formed returns: three integers whose first is a
/// texture index in `[0, n_textures)` and whose last two fit `i32`. With no
/// textures every return is rejected, so a sprite built from an empty image
/// list can never present a frame.
pub fn parse_tick(vals: &Vec<ScriptVal>, n_textures: usize) -> (r: Result<TickAction, SpriteError>)
    ensures
        r is Ok <==> tick_values_ok(vals@, n_textures as int),
        r matches Ok(a) ==> {
            &&& a.texture_index == int_of(vals@[0])
            &&& a.x == int_of(vals@[1])
            &&& a.y == int_of(vals@[2])
        },
        r matches Err(e) ==> e matches SpriteError::ScriptContract(_),
{
    if vals.len() != 3 {
        return Err(contract_error("tick must return exactly (texture_index, x, y)"));
    }
    let texture_index: usize = match &vals[0] {
        ScriptVal::Int(n) => {
            if *n < 0 || *n as u64 >= n_textures as u64 {
                return Err(contract_error("tick texture_index is out of range"));
            }
            *n as usize
        },
        _ => {
            return Err(contract_error("tick texture_index must be an integer"));
        },
    };
    let x: i32 = match &vals[1] {
        ScriptVal::Int(n) => {
            if *n < i32::MIN as i64 || *n > i32::MAX as i64 {
                return Err(contract_error("tick x must be an integer that fits i32"));
            }
            *n as i32
        },
        _ => {
            return Err(contract_error("tick x must be an integer"));
        },
    };
    let y: i32 = match &vals[2] {
        ScriptVal::Int(n) => {
            if *n < i32::MIN as i64 || *n > i32::MAX as i64 {
                return Err(contract_error("tick y must be an integer that fits i32"));
            }
            *n as i32
        },
        _ => {
            return Err(contract_error("tick y must be an integer"));
        },
    };
    Ok(TickAction { texture_index, x, y })
}

/// Builds a contract error from a static diagnostic.
fn contract_error(msg: &str) -> (r: SpriteError)
    ensures
        r matches SpriteError::ScriptContract(_),
{
    SpriteError::ScriptContract(msg.to_string())
}

#[verifier::external_type_specification]
#[verifier::external_body]
pub struct ExLua(mlua::Lua);

#[verifier::external_type_specification]
#[verifier::external_body]
pub struct ExLuaValue(mlua::Value);

/// A raw interpreter value told apart one level deep: an integer, a string,
/// a table (whose items the caller fetches separately), or anything else.
enum ShallowVal {
    Int(i64),
    Str(String),
    IsTable,
    Other,
}

/// Relies on mlua's `Lua::new_with`: an interpreter with only the math,
/// table and string standard libraries loaded; no io, os, package or debug
/// library is reachable from scripts.
#[verifier::external_body]
pub(crate) fn new_interpreter() -> (r: Result<mlua::Lua, SpriteError>)
    ensures
        r matches Err(e) ==> e matches SpriteError::ScriptRuntime(_),
{
    match mlua::Lua::new_with(
        mlua::StdLib::MATH | mlua::StdLib::TABLE | mlua::StdLib::STRING,
        mlua::LuaOptions::default(),
    ) {
        Ok(lua) => Ok(lua),
        Err(e) => Err(SpriteError::ScriptRuntime(e.to_string())),
    }
}

/// Relies on mlua's `Chunk::exec`: loads the script source into the
/// interpreter and runs it once, so that its top-level callbacks exist.
#[verifier::external_body]
pub(crate) fn exec_chunk(lua: &mlua::Lua, source: &str) -> (r: Result<(), SpriteError>)
    ensures
        r matches Err(e) ==> e matches SpriteError::ScriptRuntime(_),
{
    match lua.load(source).exec() {
        Ok(()) => Ok(()),
        Err(mlua::Error::SyntaxError { message, .. }) => Err(SpriteError::ScriptRuntime(message)),
        Err(mlua::Error::RuntimeError(m)) => Err(SpriteError::ScriptRuntime(m)),
        Err(e) => Err(SpriteError::ScriptRuntime(e.to_string())),
    }
}

/// Relies on mlua's `Table::get` and `Function::call`: looks up the global
/// `init` and calls it with no arguments; a missing or non-function global
/// is a contract error, an error raised by the script a runtime error.
#[verifier::external_body]
pub(crate) fn call_init_raw(lua: &mlua::Lua) -> (r: Result<Vec<mlua::Value>, SpriteError>)
    ensures
        r matches Err(e) ==> (e matches SpriteError::ScriptContract(_) || e
            matches SpriteError::ScriptRuntime(_)),
{
    let f = match lua.globals().get::<mlua::Function>("init") {
        Ok(f) => f,
        Err(_) => return Err(SpriteError::ScriptContract("init is not a function".to_string())),
    };
    match f.call::<mlua::MultiValue>(()) {
        Ok(mv) => Ok(mv.into_iter().collect()),
        Err(mlua::Error::RuntimeError(m)) => Err(SpriteError::ScriptRuntime(m)),
        Err(e) => Err(SpriteError::ScriptRuntime(e.to_string())),
    }
}

/// Relies on mlua's `Table::get` and `Function::call`: looks up the global
/// `tick` and calls it with the screen dimensions; a missing or non-function
/// global is a contract error, an error raised by the script a runtime error.
#[verifier::external_body]
pub(crate) fn call_tick_raw(lua: &mlua::Lua, screen_w: u32, screen_h: u32) -> (r: Result<
    Vec<mlua::Value>,
    SpriteError,
>)
    ensures
        r matches Err(e) ==> (e matches SpriteError::ScriptContract(_) || e
            matches SpriteError::ScriptRuntime(_)),
{
    let f = match lua.globals().get::<mlua::Function>("tick") {
        Ok(f) => f,
        Err(_) => return Err(SpriteError::ScriptContract("tick is not a function".to_string())),
    };
    match f.call::<mlua::MultiValue>((screen_w, screen_h)) {
        Ok(mv) => Ok(mv.into_iter().collect()),
        Err(mlua::Error::RuntimeError(m)) => Err(SpriteError::ScriptRuntime(m)),
        Err(e) => Err(SpriteError::ScriptRuntime(e.to_string())),
    }
}

/// Relies on mlua's `Value` accessors: tells the variant apart and copies
/// out an integer or a UTF-8 string; a table is only marked as such.
#[verifier::external_body]
fn shallow_model(v: &mlua::Value) -> (r: ShallowVal) {
    match v {
        mlua::Value::Integer(i) => ShallowVal::Int(*i),
        mlua::Value::String(s) => match s.to_str() {
            Ok(b) => ShallowVal::Str(b.to_string()),
            Err(_) => ShallowVal::Other,
        },
        mlua::Value::Table(_) => ShallowVal::IsTable,
        _ => ShallowVal::Other,
    }
}

/// Relies on mlua's `Table::sequence_values`: the array part of a table, in
/// order; an element that cannot be read stands as nil. For a value that is
/// not a table the result is empty.
#[verifier::external_body]
fn table_items(v: &mlua::Value) -> (r: Vec<mlua::Value>) {
    let mut out: Vec<mlua::Value> = Vec::new();
    if let mlua::Value::Table(t) = v {
        for item in t.sequence_values::<mlua::Value>() {
            out.push(item.unwrap_or(mlua::Value::Nil));
        }
    }
    out
}

/// Models one raw interpreter value: scalars copy over, a table becomes the
/// list of its items modeled one level deep, anything else is of no use.
fn model_value(v: &mlua::Value) -> ScriptVal {
    match shallow_model(v) {
        ShallowVal::Int(n) => ScriptVal::Int(n),
        ShallowVal::Str(s) => ScriptVal::Str(s),
        ShallowVal::Other => ScriptVal::Other,
        ShallowVal::IsTable => {
            let elems = table_items(v);
            let mut items: Vec<ScriptVal> = Vec::new();
            let mut i: usize = 0;
            while i < elems.len()
                invariant
                    i <= elems@.len(),
                decreases elems@.len() - i,
            {
                match shallow_model(&elems[i]) {
                    ShallowVal::Int(n) => items.push(ScriptVal::Int(n)),
                    ShallowVal::Str(s) => items.push(ScriptVal::Str(s)),
                    _ => items.push(ScriptVal::Other),
                }
                i += 1;
            }
            ScriptVal::List(items)
        },
    }
}

/// Models every value of a raw callback return, in order.
pub(crate) fn model_values(vs: &Vec<mlua::Value>) -> (r: Vec<ScriptVal>)
    ensures
        r@.len() == vs@.len(),
{
    let mut out: Vec<ScriptVal> = Vec::new();
    let mut i: usize = 0;
    while i < vs.len()
        invariant
            i <= vs@.len(),
            out@.len() == i,
        decreases vs@.len() - i,
    {
        out.push(model_value(&vs[i]));
        i += 1;
    }
    out
}

/// With no textures, every `tick` return is rejected: there is no index in
/// an empty range, so a sprite constructed from an empty image list answers
/// every tick with a contract error.
pub proof fn lemma_no_texture_rejects_every_tick(vals: Seq<ScriptVal>)
    ensures
        !tick_values_ok(vals, 0),
{
}

/// The host adds no hidden input to a frame: whether a tick return is
/// accepted, and the action it yields, are functions of the returned values
/// and the texture count alone. Two runs whose scripts return the same
/// values frame by frame are therefore accepted identically, frame by frame.
pub proof fn lemma_tick_outcome_deterministic(
    frames1: Seq<Seq<ScriptVal>>,
    frames2: Seq<Seq<ScriptVal>>,
    n_textures: int,
)
    requires
        frames1 == frames2,
    ensures
        forall|k: int|
            0 <= k < frames1.len() ==> #[trigger] tick_values_ok(frames1[k], n_textures)
                == tick_values_ok(frames2[k], n_textures),
        forall|k: int|
            0 <= k < frames1.len() ==> (int_of(#[trigger] frames1[k][0]), int_of(frames1[k][1]),
            int_of(frames1[k][2])) == (int_of(frames2[k][0]), int_of(frames2[k][1]), int_of(
                frames2[k][2],
            )),
{
}

} // verus!
