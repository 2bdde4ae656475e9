//! The value extractor: narrowing of self-describing wire values.
//!
//! A wire value arrives from the transport carrying only a runtime type tag.
//! This module models it as a tagged variant, one tag per wire shape, and
//! narrows it into one of a fixed set of target types by exhaustive pattern
//! matching. A shape mismatch yields a typed failure; no partial result is
//! ever produced.

use vstd::prelude::*;
use crate::errors::ExtractError;
use crate::errors::PropertyError;
use crate::dispatch::DBusApi;
use vstd::utf8::valid_utf8;
use vstd::utf8::decode_utf8;

verus! {

/// A self-describing value received over the bus: a runtime tag and the
/// carried data, with no static type.
#[derive(Debug)]
pub enum WireValue {
    /// A scalar text value.
    Str { text: String },
    /// A scalar integer, carried in the widest signed form.
    Int { number: i64 },
    /// A scalar boolean.
    Boolean { flag: bool },
    /// An ordered sequence of nested wire values.
    Iterable { elements: Vec<WireValue> },
    /// A positional record of nested wire values.
    Record { fields: Vec<WireValue> },
}

/// A reply message: the positionally-ordered wire values a method call
/// returned.
#[derive(Debug)]
pub struct Reply {
    pub fields: Vec<WireValue>,
}

/// The low 32 bits of a wire integer, reinterpreted as unsigned. No range
/// validation is performed: a negative or oversized value keeps only its
/// low bits.
pub open spec fn low_u32(n: i64) -> u32 {
    (n & 0xFFFF_FFFF) as u32
}

/// The low 8 bits of a wire integer, truncated to a byte.
pub open spec fn low_u8(n: i64) -> u8 {
    (n & 0xFF) as u8
}

pub fn take_low_u32(n: i64) -> (r: u32)
    ensures
        r == low_u32(n),
{
    proof {
        assert(0 <= (n & 0xFFFF_FFFF) <= 0xFFFF_FFFF) by (bit_vector);
    }
    (n & 0xFFFF_FFFF) as u32
}

pub fn take_low_u8(n: i64) -> (r: u8)
    ensures
        r == low_u8(n),
{
    proof {
        assert(0 <= (n & 0xFF) <= 0xFF) by (bit_vector);
    }
    (n & 0xFF) as u8
}

/// Narrowing of a wire value into the target type `T`.
///
/// `narrowable` says exactly which wire shapes narrow successfully;
/// `narrowed` says what the produced value is. `variant_to` either returns a
/// value satisfying both, or `None` on any shape mismatch.
pub trait VariantTo<T> {
    spec fn narrowable(value: WireValue) -> bool;

    spec fn narrowed(value: WireValue, result: T) -> bool;

    fn variant_to(value: &WireValue) -> (r: Option<T>)
        ensures
            r is Some <==> Self::narrowable(*value),
            r is Some ==> Self::narrowed(*value, r.unwrap()),
    ;
}

impl VariantTo<String> for DBusApi {
    open spec fn narrowable(value: WireValue) -> bool {
        value is Str
    }

    open spec fn narrowed(value: WireValue, result: String) -> bool {
        result@ == value->text@
    }

    fn variant_to(value: &WireValue) -> (r: Option<String>) {
        match value {
            WireValue::Str { text } => Some(text.clone()),
            _ => None,
        }
    }
}

impl VariantTo<i64> for DBusApi {
    open spec fn narrowable(value: WireValue) -> bool {
        value is Int
    }

    open spec fn narrowed(value: WireValue, result: i64) -> bool {
        result == value->number
    }

    fn variant_to(value: &WireValue) -> (r: Option<i64>) {
        match value {
            WireValue::Int { number } => Some(*number),
            _ => None,
        }
    }
}

impl VariantTo<u32> for DBusApi {
    open spec fn narrowable(value: WireValue) -> bool {
        value is Int
    }

    open spec fn narrowed(value: WireValue, result: u32) -> bool {
        result == low_u32(value->number)
    }

    fn variant_to(value: &WireValue) -> (r: Option<u32>) {
        match value {
            WireValue::Int { number } => Some(take_low_u32(*number)),
            _ => None,
        }
    }
}

impl VariantTo<bool> for DBusApi {
    open spec fn narrowable(value: WireValue) -> bool {
        value is Int
    }

    /// The boolean sense is inverted on purpose: the wire encodes success as
    /// zero, so zero narrows to `true`. Kept as-is for compatibility with the
    /// services this client talks to.
    open spec fn narrowed(value: WireValue, result: bool) -> bool {
        result == (value->number == 0)
    }

    fn variant_to(value: &WireValue) -> (r: Option<bool>) {
        match value {
            WireValue::Int { number } => Some(*number == 0),
            _ => None,
        }
    }
}

impl VariantTo<Vec<String>> for DBusApi {
    open spec fn narrowable(value: WireValue) -> bool {
        &&& value is Iterable
        &&& forall|i: int| 0 <= i < value->elements@.len() ==> value->elements@[i] is Str
    }

    open spec fn narrowed(value: WireValue, result: Vec<String>) -> bool {
        &&& result@.len() == value->elements@.len()
        &&& forall|i: int|
            0 <= i < result@.len() ==> result@[i]@ == value->elements@[i]->text@
    }

    fn variant_to(value: &WireValue) -> (r: Option<Vec<String>>) {
        match value {
            WireValue::Iterable { elements } => {
                let mut result: Vec<String> = Vec::new();
                let mut i: usize = 0;
                while i < elements.len()
                    invariant
                        value is Iterable,
                        value->elements == *elements,
                        0 <= i <= elements@.len(),
                        result@.len() == i,
                        forall|j: int| 0 <= j < i ==> elements@[j] is Str,
                        forall|j: int|
                            0 <= j < i ==> result@[j]@ == elements@[j]->text@,
                    decreases elements@.len() - i,
                {
                    match &elements[i] {
                        WireValue::Str { text } => result.push(text.clone()),
                        _ => {
                            proof {
                                assert(0 <= i < value->elements@.len() && !(value->elements@[i as int]
                                    is Str));
                            }
                            return None;
                        },
                    }
                    i = i + 1;
                }
                Some(result)
            },
            _ => None,
        }
    }
}

impl VariantTo<Vec<u8>> for DBusApi {
    open spec fn narrowable(value: WireValue) -> bool {
        &&& value is Iterable
        &&& forall|i: int| 0 <= i < value->elements@.len() ==> value->elements@[i] is Int
    }

    open spec fn narrowed(value: WireValue, result: Vec<u8>) -> bool {
        &&& result@.len() == value->elements@.len()
        &&& forall|i: int|
            0 <= i < result@.len() ==> result@[i] == low_u8(value->elements@[i]->number)
    }

    fn variant_to(value: &WireValue) -> (r: Option<Vec<u8>>) {
        match value {
            WireValue::Iterable { elements } => {
                let mut result: Vec<u8> = Vec::new();
                let mut i: usize = 0;
                while i < elements.len()
                    invariant
                        value is Iterable,
                        value->elements == *elements,
                        0 <= i <= elements@.len(),
                        result@.len() == i,
                        forall|j: int| 0 <= j < i ==> elements@[j] is Int,
                        forall|j: int|
                            0 <= j < i ==> result@[j] == low_u8(elements@[j]->number),
                    decreases elements@.len() - i,
                {
                    match &elements[i] {
                        WireValue::Int { number } => result.push(take_low_u8(*number)),
                        _ => {
                            proof {
                                assert(0 <= i < value->elements@.len() && !(value->elements@[i as int]
                                    is Int));
                            }
                            return None;
                        },
                    }
                    i = i + 1;
                }
                Some(result)
            },
            _ => None,
        }
    }
}

impl DBusApi {
    /// Narrow the first positional field of a reply to `T`. A reply without
    /// a first field, or whose first field has the wrong shape, is a single
    /// "wrong response type" failure.
    pub fn extract<T>(&self, response: &Reply) -> (r: Result<T, ExtractError>) where
        DBusApi: VariantTo<T>,

        ensures
            r is Ok <==> response.fields@.len() >= 1 && <DBusApi as VariantTo<T>>::narrowable(
                response.fields@[0],
            ),
            r is Ok ==> <DBusApi as VariantTo<T>>::narrowed(response.fields@[0], r.unwrap()),
            r is Err ==> r->Err_0 is WrongResponseType,
    {
        if response.fields.len() < 1 {
            return Err(ExtractError::WrongResponseType);
        }
        match <DBusApi as VariantTo<T>>::variant_to(&response.fields[0]) {
            Some(data) => Ok(data),
            None => Err(ExtractError::WrongResponseType),
        }
    }

    /// Narrow a fetched property's wire value to `T`. A transport-level
    /// fetch failure is an expected, low-severity error; a successfully
    /// fetched value of the wrong shape points at a schema mismatch and is a
    /// high-severity one. Both are returned to the caller, distinguished
    /// only by severity.
    pub fn property<T>(&self, fetched: Result<WireValue, Option<String>>) -> (r: Result<
        T,
        PropertyError,
    >) where DBusApi: VariantTo<T>
        ensures
            r is Ok <==> (fetched matches Ok(v) && <DBusApi as VariantTo<T>>::narrowable(v)),
            r is Ok ==> <DBusApi as VariantTo<T>>::narrowed(fetched->Ok_0, r.unwrap()),
            (fetched matches Ok(v) && !<DBusApi as VariantTo<T>>::narrowable(v)) ==> (r matches Err(
                e,
            ) && e is WrongType),
            fetched matches Err(d) ==> r == Err::<T, PropertyError>(
                PropertyError::Fetch { details: d },
            ),
    {
        match fetched {
            Ok(variant) => match <DBusApi as VariantTo<T>>::variant_to(&variant) {
                Some(data) => Ok(data),
                None => Err(PropertyError::WrongType),
            },
            Err(details) => Err(PropertyError::Fetch { details }),
        }
    }

    /// Narrow the first two positional fields of a reply. If either field is
    /// absent or has the wrong shape, the whole extraction fails; no partial
    /// pair is returned.
    pub fn extract_two<T1, T2>(&self, response: &Reply) -> (r: Result<(T1, T2), ExtractError>) where
        DBusApi: VariantTo<T1>,
        DBusApi: VariantTo<T2>,

        ensures
            r is Ok <==> response.fields@.len() >= 2 && <DBusApi as VariantTo<T1>>::narrowable(
                response.fields@[0],
            ) && <DBusApi as VariantTo<T2>>::narrowable(response.fields@[1]),
            r is Ok ==> <DBusApi as VariantTo<T1>>::narrowed(response.fields@[0], r.unwrap().0)
                && <DBusApi as VariantTo<T2>>::narrowed(response.fields@[1], r.unwrap().1),
            r is Err ==> r->Err_0 is WrongResponseType,
    {
        if response.fields.len() < 2 {
            return Err(ExtractError::WrongResponseType);
        }
        let first = <DBusApi as VariantTo<T1>>::variant_to(&response.fields[0]);
        let second = <DBusApi as VariantTo<T2>>::variant_to(&response.fields[1]);
        if let Some(first) = first {
            if let Some(second) = second {
                return Ok((first, second));
            }
        }
        Err(ExtractError::WrongResponseType)
    }
}

/// Narrow a single wire value to `T`, failing with a type-mismatch error on
/// any wrong shape.
pub fn extract<T>(var: &WireValue) -> (r: Result<T, ExtractError>) where DBusApi: VariantTo<T>
    ensures
        r is Ok <==> <DBusApi as VariantTo<T>>::narrowable(*var),
        r is Ok ==> <DBusApi as VariantTo<T>>::narrowed(*var, r.unwrap()),
        r is Err ==> r->Err_0 is TypeMismatch,
{
    match <DBusApi as VariantTo<T>>::variant_to(var) {
        Some(data) => Ok(data),
        None => Err(ExtractError::TypeMismatch),
    }
}

/// Narrow a wire value to a byte list, failing when the value is not an
/// iterable of integers.
pub fn variant_iter_to_vec_u8(var: &WireValue) -> (r: Result<Vec<u8>, ExtractError>)
    ensures
        r is Ok <==> <DBusApi as VariantTo<Vec<u8>>>::narrowable(*var),
        r is Ok ==> <DBusApi as VariantTo<Vec<u8>>>::narrowed(*var, r.unwrap()),
        r is Err ==> r->Err_0 is NotAnArray,
{
    match <DBusApi as VariantTo<Vec<u8>>>::variant_to(var) {
        Some(data) => Ok(data),
        None => Err(ExtractError::NotAnArray),
    }
}

/// Relies on std::str::from_utf8: it returns Ok exactly when the bytes are
/// valid UTF-8, and the resulting text is their decoding.
#[verifier::external_body]
fn utf8_to_string(bytes: &[u8]) -> (r: Option<String>)
    ensures
        r is Some <==> valid_utf8(bytes@),
        r is Some ==> r.unwrap()@ == decode_utf8(bytes@),
{
    match std::str::from_utf8(bytes) {
        Ok(text) => Some(text.to_string()),
        Err(_) => None,
    }
}

/// Decode a transport-native path identifier, given as its raw bytes, into a
/// plain string. Fails distinctly when the bytes are not valid text.
pub fn path_to_string(path: &[u8]) -> (r: Result<String, ExtractError>)
    ensures
        r is Ok <==> valid_utf8(path@),
        r is Ok ==> r.unwrap()@ == decode_utf8(path@),
        r is Err ==> r->Err_0 is Encoding,
{
    match utf8_to_string(path) {
        Some(text) => Ok(text),
        None => Err(ExtractError::Encoding),
    }
}

} // verus!
