//! The built-in globals of the language.
//!
//! Literal types (`String`, `Char`, the integer and floating point
//! types), the booleans, and the `Array` type constructor are ordinary
//! free variables declared in a starting context; evaluated, they appear
//! as neutrals, and the elaborator recognizes them by identity when it
//! checks a literal or an array against an expected type. The
//! [`Prelude`] value carries those identities so that recognition never
//! goes by name.

use vstd::prelude::*;

use crate::context::Context;
use crate::core_syntax::Term;
use crate::domain::{Closure, Env, NVar, Neutral, Value};
use crate::var::FreeVar;

verus! {

pub const BOOL_ID: u64 = 0;

pub const TRUE_ID: u64 = 1;

pub const FALSE_ID: u64 = 2;

pub const STRING_ID: u64 = 3;

pub const CHAR_ID: u64 = 4;

pub const U8_ID: u64 = 5;

pub const U16_ID: u64 = 6;

pub const U32_ID: u64 = 7;

pub const U64_ID: u64 = 8;

pub const S8_ID: u64 = 9;

pub const S16_ID: u64 = 10;

pub const S32_ID: u64 = 11;

pub const S64_ID: u64 = 12;

pub const F32_ID: u64 = 13;

pub const F64_ID: u64 = 14;

pub const ARRAY_ID: u64 = 15;

/// The free variables of the built-in globals, carried by identity so
/// that the elaborator can recognize their neutral occurrences.
pub struct Prelude {
    pub bool_var: FreeVar,
    pub true_var: FreeVar,
    pub false_var: FreeVar,
    pub string_var: FreeVar,
    pub char_var: FreeVar,
    pub u8_var: FreeVar,
    pub u16_var: FreeVar,
    pub u32_var: FreeVar,
    pub u64_var: FreeVar,
    pub s8_var: FreeVar,
    pub s16_var: FreeVar,
    pub s32_var: FreeVar,
    pub s64_var: FreeVar,
    pub f32_var: FreeVar,
    pub f64_var: FreeVar,
    pub array_var: FreeVar,
}

/// Whether the prelude's identities are the fixed built-in ones.
pub open spec fn prelude_ids(p: &Prelude) -> bool {
    &&& p.bool_var.id == BOOL_ID
    &&& p.true_var.id == TRUE_ID
    &&& p.false_var.id == FALSE_ID
    &&& p.string_var.id == STRING_ID
    &&& p.char_var.id == CHAR_ID
    &&& p.u8_var.id == U8_ID
    &&& p.u16_var.id == U16_ID
    &&& p.u32_var.id == U32_ID
    &&& p.u64_var.id == U64_ID
    &&& p.s8_var.id == S8_ID
    &&& p.s16_var.id == S16_ID
    &&& p.s32_var.id == S32_ID
    &&& p.s64_var.id == S64_ID
    &&& p.f32_var.id == F32_ID
    &&& p.f64_var.id == F64_ID
    &&& p.array_var.id == ARRAY_ID
}

/// The neutral occurrence of a free variable.
fn neutral_of(free_var: &FreeVar) -> (r: Value)
    ensures
        r == Value::Neutral(Box::new(Neutral::Var(NVar::Free(*free_var)))),
{
    Value::Neutral(Box::new(Neutral::Var(NVar::Free(free_var.clone()))))
}

/// A built-in free variable.
fn make_var(id: u64, name: &str) -> (r: FreeVar)
    ensures
        r.id == id,
        r.name@ == name@,
{
    FreeVar { id, name: name.to_owned() }
}

/// Whether a value is the neutral occurrence of the free variable with
/// the given identity: how the built-in constants appear once
/// evaluated.
pub open spec fn neutral_head_is(v: Value, id: u64) -> bool {
    match v {
        Value::Neutral(n) => match *n {
            Neutral::Var(NVar::Free(f)) => f.id == id,
            _ => false,
        },
        _ => false,
    }
}

/// Build the built-in globals and the starting context that declares
/// them: the literal types, `Bool` with `true` and `false`, and
/// `Array : U64 -> Type -> Type`. The context defines none of them, so
/// each evaluates to its own neutral.
pub fn prelude() -> (r: (Prelude, Context))
    ensures
        prelude_ids(&r.0),
        r.1.lookup_type_spec(BOOL_ID) == Some(Value::Universe(0)),
        r.1.lookup_type_spec(STRING_ID) == Some(Value::Universe(0)),
        r.1.lookup_type_spec(CHAR_ID) == Some(Value::Universe(0)),
        r.1.lookup_type_spec(U8_ID) == Some(Value::Universe(0)),
        r.1.lookup_type_spec(U16_ID) == Some(Value::Universe(0)),
        r.1.lookup_type_spec(U32_ID) == Some(Value::Universe(0)),
        r.1.lookup_type_spec(U64_ID) == Some(Value::Universe(0)),
        r.1.lookup_type_spec(S8_ID) == Some(Value::Universe(0)),
        r.1.lookup_type_spec(S16_ID) == Some(Value::Universe(0)),
        r.1.lookup_type_spec(S32_ID) == Some(Value::Universe(0)),
        r.1.lookup_type_spec(S64_ID) == Some(Value::Universe(0)),
        r.1.lookup_type_spec(F32_ID) == Some(Value::Universe(0)),
        r.1.lookup_type_spec(F64_ID) == Some(Value::Universe(0)),
        r.1.lookup_type_spec(TRUE_ID) matches Some(v) && neutral_head_is(v, BOOL_ID),
        r.1.lookup_type_spec(FALSE_ID) matches Some(v) && neutral_head_is(v, BOOL_ID),
        r.1.lookup_type_spec(ARRAY_ID) matches Some(v) && (v matches Value::FunType(
            _,
            dom,
            _,
        ) && neutral_head_is(*dom, U64_ID)),
        (forall|id: u64| id > ARRAY_ID ==> r.1.lookup_type_spec(id) is None),
        (forall|id: u64| r.1.lookup_value_spec(id) is None),
{
    let bool_var = make_var(BOOL_ID, "Bool");
    let true_var = make_var(TRUE_ID, "true");
    let false_var = make_var(FALSE_ID, "false");
    let string_var = make_var(STRING_ID, "String");
    let char_var = make_var(CHAR_ID, "Char");
    let u8_var = make_var(U8_ID, "U8");
    let u16_var = make_var(U16_ID, "U16");
    let u32_var = make_var(U32_ID, "U32");
    let u64_var = make_var(U64_ID, "U64");
    let s8_var = make_var(S8_ID, "S8");
    let s16_var = make_var(S16_ID, "S16");
    let s32_var = make_var(S32_ID, "S32");
    let s64_var = make_var(S64_ID, "S64");
    let f32_var = make_var(F32_ID, "F32");
    let f64_var = make_var(F64_ID, "F64");
    let array_var = make_var(ARRAY_ID, "Array");

    let ctx = Context::new();
    let ctx = ctx.extend_type(bool_var.clone(), Value::Universe(0));
    let ctx = ctx.extend_type(true_var.clone(), neutral_of(&bool_var));
    let ctx = ctx.extend_type(false_var.clone(), neutral_of(&bool_var));
    let ctx = ctx.extend_type(string_var.clone(), Value::Universe(0));
    let ctx = ctx.extend_type(char_var.clone(), Value::Universe(0));
    let ctx = ctx.extend_type(u8_var.clone(), Value::Universe(0));
    let ctx = ctx.extend_type(u16_var.clone(), Value::Universe(0));
    let ctx = ctx.extend_type(u32_var.clone(), Value::Universe(0));
    let ctx = ctx.extend_type(u64_var.clone(), Value::Universe(0));
    let ctx = ctx.extend_type(s8_var.clone(), Value::Universe(0));
    let ctx = ctx.extend_type(s16_var.clone(), Value::Universe(0));
    let ctx = ctx.extend_type(s32_var.clone(), Value::Universe(0));
    let ctx = ctx.extend_type(s64_var.clone(), Value::Universe(0));
    let ctx = ctx.extend_type(f32_var.clone(), Value::Universe(0));
    let ctx = ctx.extend_type(f64_var.clone(), Value::Universe(0));

    // Array : (n : U64) -> (a : Type) -> Type
    let array_ty = Value::FunType(
        "n".to_owned(),
        Box::new(neutral_of(&u64_var)),
        Closure {
            env: Env::Nil,
            body: Box::new(
                Term::FunType(
                    "a".to_owned(),
                    Box::new(Term::Universe(0)),
                    Box::new(Term::Universe(0)),
                ),
            ),
        },
    );
    let ctx = ctx.extend_type(array_var.clone(), array_ty);
    proof {
        reveal_with_fuel(crate::context::entries_lookup_type, 20);
        reveal_with_fuel(crate::context::entries_lookup_value, 20);
    }

    let p = Prelude {
        bool_var,
        true_var,
        false_var,
        string_var,
        char_var,
        u8_var,
        u16_var,
        u32_var,
        u64_var,
        s8_var,
        s16_var,
        s32_var,
        s64_var,
        f32_var,
        f64_var,
        array_var,
    };
    (p, ctx)
}

} // verus!
