//! Marshaling conventions for byte buffers: a native buffer of unsigned
//! bytes is copied element-wise into the foreign runtime's signed byte
//! representation before crossing the boundary, and copied back with the
//! inverse reinterpretation on return. Ownership always transfers by copy.

use vstd::prelude::*;
use jni::JNIEnv;
use jni::objects::{JObject, JValueGen};
use crate::dec::Dec;
use crate::dispatch;
use crate::error::ForeignCallError;

verus! {

/// The value a native unsigned byte takes in the foreign runtime's signed
/// byte representation: a two's-complement reinterpretation.
pub open spec fn signed_reading(b: u8) -> int {
    if b < 128 {
        b as int
    } else {
        b as int - 256
    }
}

/// The value a foreign signed byte takes in the native unsigned
/// representation: the inverse two's-complement reinterpretation.
pub open spec fn unsigned_reading(s: i8) -> int {
    if s >= 0 {
        s as int
    } else {
        s as int + 256
    }
}

/// Reinterprets one native byte as a foreign signed byte.
pub fn to_signed_byte(b: u8) -> (r: i8)
    ensures
        r as int == signed_reading(b),
{
    if b < 128 {
        b as i8
    } else {
        (b as i32 - 256) as i8
    }
}

/// Reinterprets one foreign signed byte as a native byte.
pub fn to_unsigned_byte(s: i8) -> (r: u8)
    ensures
        r as int == unsigned_reading(s),
{
    if s >= 0 {
        s as u8
    } else {
        (s as i32 + 256) as u8
    }
}

/// Marshals a native buffer to the foreign signed-byte representation,
/// element by element.
pub fn marshal_bytes(data: &[u8]) -> (r: Vec<i8>)
    ensures
        r@.len() == data@.len(),
        forall|i: int| 0 <= i < data@.len() ==> #[trigger] r@[i] as int == signed_reading(data@[i]),
{
    let mut out: Vec<i8> = Vec::new();
    let mut k: usize = 0;
    while k < data.len()
        invariant
            k <= data@.len(),
            out@.len() == k,
            forall|i: int| 0 <= i < k ==> #[trigger] out@[i] as int == signed_reading(data@[i]),
        decreases data@.len() - k,
    {
        out.push(to_signed_byte(data[k]));
        k = k + 1;
    }
    out
}

/// Unmarshals a foreign signed-byte buffer back to the native unsigned
/// representation, element by element.
pub fn unmarshal_bytes(data: &[i8]) -> (r: Vec<u8>)
    ensures
        r@.len() == data@.len(),
        forall|i: int| 0 <= i < data@.len() ==> #[trigger] r@[i] as int == unsigned_reading(data@[i]),
{
    let mut out: Vec<u8> = Vec::new();
    let mut k: usize = 0;
    while k < data.len()
        invariant
            k <= data@.len(),
            out@.len() == k,
            forall|i: int| 0 <= i < k ==> #[trigger] out@[i] as int == unsigned_reading(data@[i]),
        decreases data@.len() - k,
    {
        out.push(to_unsigned_byte(data[k]));
        k = k + 1;
    }
    out
}

/// Marshals a decimal quantity into the foreign runtime's floating-point
/// representation, as an owned call value ready to be passed as an argument:
/// the quantity's canonical decimal text is handed to the runtime's own
/// number reader, so no floating-point value exists on the native side.
pub(crate) fn float_value<'a>(
    env: &mut JNIEnv<'a>,
    quantity: &Dec,
) -> (r: Result<JValueGen<JObject<'a>>, ForeignCallError>)
    ensures
        r matches Err(e) ==> e is Runtime,
{
    let text = quantity.to_decimal_text();
    let text_obj = match dispatch::new_string(env, text.as_str()) {
        Ok(v) => v,
        Err(err) => {
            return Err(ForeignCallError::Runtime(err));
        },
    };
    let value = match dispatch::call_static_method(
        env,
        "java/lang/Float",
        "parseFloat",
        "(Ljava/lang/String;)F",
        &[dispatch::arg_obj(&text_obj)],
    ) {
        Ok(v) => v,
        Err(err) => {
            return Err(ForeignCallError::Runtime(err));
        },
    };
    Ok(value)
}

/// Reads a foreign floating-point call result back as its decimal text, as
/// the foreign runtime itself prints it.
pub(crate) fn float_text<'a>(
    env: &mut JNIEnv<'a>,
    value: &JValueGen<JObject<'a>>,
) -> (r: Result<String, ForeignCallError>)
    ensures
        r matches Err(e) ==> e is Runtime,
{
    let text_value = match dispatch::call_static_method(
        env,
        "java/lang/Float",
        "toString",
        "(F)Ljava/lang/String;",
        &[dispatch::arg_of_value(value)],
    ) {
        Ok(v) => v,
        Err(err) => {
            return Err(ForeignCallError::Runtime(err));
        },
    };
    let text_obj = match dispatch::value_object(text_value) {
        Ok(v) => v,
        Err(err) => {
            return Err(ForeignCallError::Runtime(err));
        },
    };
    let text = match dispatch::read_string(env, text_obj) {
        Ok(v) => v,
        Err(err) => {
            return Err(ForeignCallError::Runtime(err));
        },
    };
    Ok(text)
}

/// Fills a foreign float array, element by element, from the decimal
/// quantities given, and returns it as a plain object reference. The array is
/// allocated by the runtime's reflective array factory and each element is
/// set through its reflective element store.
pub(crate) fn float_array<'a>(
    env: &mut JNIEnv<'a>,
    quantities: &[Dec],
) -> (r: Result<JObject<'a>, ForeignCallError>)
    requires
        quantities@.len() <= 0x7fff_ffff,
    ensures
        r matches Err(e) ==> e is Runtime,
{
    let float_class_value = match dispatch::get_static_field(
        env,
        "java/lang/Float",
        "TYPE",
        "Ljava/lang/Class;",
    ) {
        Ok(v) => v,
        Err(err) => {
            return Err(ForeignCallError::Runtime(err));
        },
    };
    let float_class = match dispatch::value_object(float_class_value) {
        Ok(v) => v,
        Err(err) => {
            return Err(ForeignCallError::Runtime(err));
        },
    };
    let array_value = match dispatch::call_static_method(
        env,
        "java/lang/reflect/Array",
        "newInstance",
        "(Ljava/lang/Class;I)Ljava/lang/Object;",
        &[dispatch::arg_obj(&float_class), dispatch::arg_int(quantities.len() as i32)],
    ) {
        Ok(v) => v,
        Err(err) => {
            return Err(ForeignCallError::Runtime(err));
        },
    };
    let array = match dispatch::value_object(array_value) {
        Ok(v) => v,
        Err(err) => {
            return Err(ForeignCallError::Runtime(err));
        },
    };
    let mut k: usize = 0;
    while k < quantities.len()
        invariant
            quantities@.len() <= 0x7fff_ffff,
        decreases quantities@.len() - k,
    {
        let element = match float_value(env, &quantities[k]) {
            Ok(v) => v,
            Err(err) => {
                return Err(err);
            },
        };
        match dispatch::call_static_method(
            env,
            "java/lang/reflect/Array",
            "setFloat",
            "(Ljava/lang/Object;IF)V",
            &[dispatch::arg_obj(&array), dispatch::arg_int(k as i32), dispatch::arg_of_value(
                &element,
            )],
        ) {
            Ok(_) => (),
            Err(err) => {
                return Err(ForeignCallError::Runtime(err));
            },
        }
        k = k + 1;
    }
    Ok(array)
}

/// Law: marshaling then unmarshaling gives back the original buffer, for
/// every buffer and every length, including bytes of value 128 and above:
/// the signedness reinterpretation round trip is lossless.
pub proof fn lemma_marshal_round_trip(b: Seq<u8>, s: Seq<i8>, b2: Seq<u8>)
    requires
        s.len() == b.len(),
        forall|i: int| 0 <= i < b.len() ==> #[trigger] s[i] as int == signed_reading(b[i]),
        b2.len() == s.len(),
        forall|i: int| 0 <= i < s.len() ==> #[trigger] b2[i] as int == unsigned_reading(s[i]),
    ensures
        b2 == b,
{
    assert forall|i: int| 0 <= i < b.len() implies b2[i] == b[i] by {
        assert(s[i] as int == signed_reading(b[i]));
        assert(b2[i] as int == unsigned_reading(s[i]));
    }
    assert(b2 =~= b);
}

} // verus!
