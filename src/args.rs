//! Named arguments as a template hands them over, and their typed reading.

use vstd::prelude::*;
use crate::error::{ArgKey, ImageFnError};

verus! {

/// The value of one named argument.
#[derive(Clone, Debug)]
pub enum ArgValue {
    /// A string.
    Str(String),
    /// A non-negative integer.
    UInt(u64),
    /// A negative integer.
    NegInt(i64),
    /// A boolean.
    Bool(bool),
    /// Any other value: a fractional number, null, an array or a map.
    Other,
}

/// Two optional arguments that hold the same value.
pub open spec fn same_arg(a: Option<ArgValue>, b: Option<ArgValue>) -> bool {
    match (a, b) {
        (Some(ArgValue::Str(x)), Some(ArgValue::Str(y))) => x@ == y@,
        (Some(ArgValue::Str(_)), _) => false,
        (_, Some(ArgValue::Str(_))) => false,
        _ => a == b,
    }
}

/// The error of a string argument: none where it is absent or a string.
pub open spec fn text_arg_error(v: Option<ArgValue>, key: ArgKey) -> Option<ImageFnError> {
    match v {
        None => None,
        Some(ArgValue::Str(_)) => None,
        Some(_) => Some(ImageFnError::InvalidArgumentType(key)),
    }
}

/// The string an argument holds, if it holds one.
pub open spec fn text_value(v: Option<ArgValue>) -> Option<String> {
    match v {
        Some(ArgValue::Str(s)) => Some(s),
        _ => None,
    }
}

/// The characters of a string argument, or `default` where it is absent.
pub open spec fn text_or(v: Option<ArgValue>, default: Seq<char>) -> Seq<char> {
    match v {
        Some(ArgValue::Str(s)) => s@,
        _ => default,
    }
}

/// The error of an integer argument that must fit in 32 bits.
pub open spec fn u32_arg_error(v: Option<ArgValue>, key: ArgKey) -> Option<ImageFnError> {
    match v {
        None => None,
        Some(ArgValue::UInt(n)) => if n <= u32::MAX {
            None
        } else {
            Some(ImageFnError::InvalidArgumentType(key))
        },
        Some(_) => Some(ImageFnError::InvalidArgumentType(key)),
    }
}

/// The value of an integer argument that fits in 32 bits.
pub open spec fn u32_value(v: Option<ArgValue>) -> Option<u32> {
    match v {
        Some(ArgValue::UInt(n)) => Some(n as u32),
        _ => None,
    }
}

/// The error of a boolean argument.
pub open spec fn bool_arg_error(v: Option<ArgValue>, key: ArgKey) -> Option<ImageFnError> {
    match v {
        None => None,
        Some(ArgValue::Bool(_)) => None,
        Some(_) => Some(ImageFnError::InvalidArgumentType(key)),
    }
}

/// The value of a boolean argument, or `default` where it is absent.
pub open spec fn bool_or(v: Option<ArgValue>, default: bool) -> bool {
    match v {
        Some(ArgValue::Bool(b)) => b,
        _ => default,
    }
}

/// The error of a quality argument: an integer in `1..=100` where present.
pub open spec fn quality_error(v: Option<ArgValue>) -> Option<ImageFnError> {
    match v {
        None => None,
        Some(ArgValue::UInt(n)) => if 1 <= n <= 100 {
            None
        } else {
            Some(ImageFnError::InvalidRange(ArgKey::Quality))
        },
        Some(_) => Some(ImageFnError::InvalidArgumentType(ArgKey::Quality)),
    }
}

/// The value of a valid quality argument.
pub open spec fn quality_value(v: Option<ArgValue>) -> Option<u8> {
    match v {
        Some(ArgValue::UInt(n)) => Some(n as u8),
        _ => None,
    }
}

/// Reads an optional string argument.
pub fn take_text(v: Option<ArgValue>, key: ArgKey) -> (r: Result<Option<String>, ImageFnError>)
    ensures
        match text_arg_error(v, key) {
            Some(e) => r matches Err(f) && f == e,
            None => r == Ok::<Option<String>, ImageFnError>(text_value(v)),
        },
{
    match v {
        None => Ok(None),
        Some(ArgValue::Str(s)) => Ok(Some(s)),
        Some(_) => Err(ImageFnError::InvalidArgumentType(key)),
    }
}

/// Reads an optional integer argument that must fit in 32 bits.
pub fn take_u32(v: Option<ArgValue>, key: ArgKey) -> (r: Result<Option<u32>, ImageFnError>)
    ensures
        match u32_arg_error(v, key) {
            Some(e) => r matches Err(f) && f == e,
            None => r == Ok::<Option<u32>, ImageFnError>(u32_value(v)),
        },
{
    match v {
        None => Ok(None),
        Some(ArgValue::UInt(n)) => {
            if n <= u32::MAX as u64 {
                Ok(Some(n as u32))
            } else {
                Err(ImageFnError::InvalidArgumentType(key))
            }
        },
        Some(_) => Err(ImageFnError::InvalidArgumentType(key)),
    }
}

/// Reads an optional boolean argument.
pub fn take_bool(v: Option<ArgValue>, key: ArgKey) -> (r: Result<Option<bool>, ImageFnError>)
    ensures
        match bool_arg_error(v, key) {
            Some(e) => r matches Err(f) && f == e,
            None => r matches Ok(o) && (o is Some <==> v is Some) && (o matches Some(b) ==> b
                == bool_or(v, false)),
        },
{
    match v {
        None => Ok(None),
        Some(ArgValue::Bool(b)) => Ok(Some(b)),
        Some(_) => Err(ImageFnError::InvalidArgumentType(key)),
    }
}

/// Reads an optional quality argument, an integer in `1..=100`.
pub fn take_quality(v: Option<ArgValue>) -> (r: Result<Option<u8>, ImageFnError>)
    ensures
        match quality_error(v) {
            Some(e) => r matches Err(f) && f == e,
            None => r == Ok::<Option<u8>, ImageFnError>(quality_value(v)),
        },
{
    match v {
        None => Ok(None),
        Some(ArgValue::UInt(n)) => {
            if 1 <= n && n <= 100 {
                Ok(Some(n as u8))
            } else {
                Err(ImageFnError::InvalidRange(ArgKey::Quality))
            }
        },
        Some(_) => Err(ImageFnError::InvalidArgumentType(ArgKey::Quality)),
    }
}

} // verus!
