//! The boundary to the foreign runtime: declarations of the binding crate's
//! opaque types and one trusted item per binding function the library calls.
//!
//! Every operation of the library funnels through these items. Each carries
//! only what the binding's own source shows; results that depend on the state
//! of the foreign runtime carry no contract at all.

use vstd::prelude::*;
use jni::JNIEnv;
use jni::objects::{JByteArray, JObject, JValueGen};

verus! {

#[verifier::external_type_specification]
#[verifier::external_body]
pub struct ExJniError(jni::errors::Error);

#[verifier::external_type_specification]
#[verifier::external_body]
pub struct ExJNIEnv<'a>(JNIEnv<'a>);

#[verifier::external_type_specification]
#[verifier::external_body]
pub struct ExJObjectRaw(jni::sys::_jobject);

#[verifier::external_type_specification]
#[verifier::external_body]
pub struct ExJObject<'a>(JObject<'a>);

#[verifier::external_type_specification]
#[verifier::external_body]
#[verifier::reject_recursive_types(O)]
pub struct ExJValueGen<O>(JValueGen<O>);

/// Relies on jni::objects::JValueGen::Object: wraps a borrowed object
/// reference as a foreign call argument, carrying the reference unchanged.
#[verifier::external_body]
pub(crate) fn arg_obj<'o, 'a>(obj: &'o JObject<'a>) -> JValueGen<&'o JObject<'a>> {
    JValueGen::Object(obj)
}

/// Relies on jni::objects::JValueGen::Int: wraps a native 32-bit integer as a
/// foreign call argument, carrying the value unchanged.
#[verifier::external_body]
pub(crate) fn arg_int<'o, 'a>(value: i32) -> JValueGen<&'o JObject<'a>> {
    JValueGen::Int(value)
}

/// Relies on jni::objects::JValueGen's From<bool>: wraps a native boolean as
/// a foreign call argument, carrying the value unchanged.
#[verifier::external_body]
pub(crate) fn arg_bool<'o, 'a>(value: bool) -> JValueGen<&'o JObject<'a>> {
    JValueGen::from(value)
}

/// Relies on jni::objects::JValueGen::borrow: turns an owned call result into
/// a borrowed call argument, carrying the value unchanged.
#[verifier::external_body]
pub(crate) fn arg_of_value<'o, 'a>(value: &'o JValueGen<JObject<'a>>) -> JValueGen<&'o JObject<'a>> {
    value.borrow()
}

/// Relies on jni::objects::JValueGen::l: an object result yields its
/// reference; any other variant is a type-mismatch fault.
#[verifier::external_body]
pub(crate) fn value_object<'a>(
    value: JValueGen<JObject<'a>>,
) -> Result<JObject<'a>, jni::errors::Error> {
    value.l()
}

/// Relies on jni::objects::JValueGen::i: a 32-bit integer result yields its
/// value; any other variant is a type-mismatch fault.
#[verifier::external_body]
pub(crate) fn value_int<'a>(
    value: JValueGen<JObject<'a>>,
) -> Result<i32, jni::errors::Error> {
    value.i()
}

/// Relies on jni::JNIEnv::new_object: invokes the named class's constructor
/// with the given signature descriptor; a missing class, a signature
/// mismatch or a thrown foreign exception comes back as a fault, and no
/// object is produced.
#[verifier::external_body]
pub(crate) fn new_object<'a>(
    env: &mut JNIEnv<'a>,
    class: &str,
    ctor_sig: &str,
    ctor_args: &[JValueGen<&JObject<'a>>],
) -> Result<JObject<'a>, jni::errors::Error> {
    env.new_object(class, ctor_sig, ctor_args)
}

/// Relies on jni::JNIEnv::call_method: invokes the named instance method with
/// the given signature descriptor on the given object; a missing method, a
/// signature mismatch or a thrown foreign exception comes back as a fault.
#[verifier::external_body]
pub(crate) fn call_method<'a>(
    env: &mut JNIEnv<'a>,
    obj: &JObject<'a>,
    name: &str,
    sig: &str,
    args: &[JValueGen<&JObject<'a>>],
) -> Result<JValueGen<JObject<'a>>, jni::errors::Error> {
    env.call_method(obj, name, sig, args)
}

/// Relies on jni::JNIEnv::call_static_method: invokes the named static method
/// of the named class with the given signature descriptor.
#[verifier::external_body]
pub(crate) fn call_static_method<'a>(
    env: &mut JNIEnv<'a>,
    class: &str,
    name: &str,
    sig: &str,
    args: &[JValueGen<&JObject<'a>>],
) -> Result<JValueGen<JObject<'a>>, jni::errors::Error> {
    env.call_static_method(class, name, sig, args)
}

/// Relies on jni::JNIEnv::get_static_field: reads the named static field of
/// the named class, given the field's type descriptor.
#[verifier::external_body]
pub(crate) fn get_static_field<'a>(
    env: &mut JNIEnv<'a>,
    class: &str,
    field: &str,
    sig: &str,
) -> Result<JValueGen<JObject<'a>>, jni::errors::Error> {
    env.get_static_field(class, field, sig)
}

/// Relies on jni::JNIEnv::new_string: allocates one foreign string object per
/// call holding the given text, re-encoded to the runtime's string format.
#[verifier::external_body]
pub(crate) fn new_string<'a>(
    env: &mut JNIEnv<'a>,
    text: &str,
) -> Result<JObject<'a>, jni::errors::Error> {
    Ok(JObject::from(env.new_string(text)?))
}

/// Relies on jni::JNIEnv::get_string: reads the characters of a foreign
/// string object back into a native string.
#[verifier::external_body]
pub(crate) fn read_string<'a>(
    env: &mut JNIEnv<'a>,
    obj: JObject<'a>,
) -> Result<String, jni::errors::Error> {
    let jstr = jni::objects::JString::from(obj);
    let java_str = env.get_string(&jstr)?;
    Ok(String::from(java_str))
}

/// Relies on jni::JNIEnv::new_byte_array: allocates a foreign byte array of
/// the given length, returned as the plain object reference it wraps.
#[verifier::external_body]
pub(crate) fn new_byte_array<'a>(
    env: &mut JNIEnv<'a>,
    length: i32,
) -> Result<JObject<'a>, jni::errors::Error> {
    Ok(JObject::from(env.new_byte_array(length)?))
}

/// Relies on jni::JNIEnv::set_byte_array_region: copies every element of the
/// native buffer into the foreign byte array starting at the given index; the
/// foreign array must be long enough or the call faults and copies nothing.
#[verifier::external_body]
pub(crate) fn set_byte_array_region<'a>(
    env: &mut JNIEnv<'a>,
    array: &JObject<'a>,
    start: i32,
    buf: &[i8],
) -> Result<(), jni::errors::Error> {
    let array: &JByteArray<'a> = <&JByteArray>::from(array);
    env.set_byte_array_region(array, start, buf)
}

/// Relies on jni::JNIEnv::get_byte_array_region: fills the whole native
/// buffer with elements of the foreign byte array starting at the given
/// index, leaving the buffer's length unchanged; if the requested region is
/// out of the array's bounds the call faults and copies nothing.
#[verifier::external_body]
pub(crate) fn get_byte_array_region<'a>(
    env: &mut JNIEnv<'a>,
    array: &JObject<'a>,
    start: i32,
    buf: &mut Vec<i8>,
) -> (r: Result<(), jni::errors::Error>)
    ensures
        final(buf)@.len() == old(buf)@.len(),
{
    let array: &JByteArray<'a> = <&JByteArray>::from(array);
    env.get_byte_array_region(array, start, buf.as_mut_slice())
}

/// Relies on jni::JNIEnv::get_array_length: returns the length of the foreign
/// byte array, which the runtime keeps as a non-negative 32-bit count.
#[verifier::external_body]
pub(crate) fn get_array_length<'a>(
    env: &mut JNIEnv<'a>,
    array: &JObject<'a>,
) -> (r: Result<i32, jni::errors::Error>)
    ensures
        r matches Ok(n) ==> 0 <= n,
{
    let array: &JByteArray<'a> = <&JByteArray>::from(array);
    env.get_array_length(array)
}

/// Relies on jni::objects::JObject::null: the null reference, the foreign
/// runtime's absent-object sentinel.
#[verifier::external_body]
pub(crate) fn null_obj() -> JObject<'static> {
    JObject::null()
}

/// Relies on jni::objects::JObject::as_raw: whether the reference is the
/// foreign runtime's absent-object sentinel.
#[verifier::external_body]
pub(crate) fn obj_is_null<'a>(obj: &JObject<'a>) -> bool {
    obj.as_raw().is_null()
}

/// What convert_case's constant-case transformation returns for a given text:
/// a pure function of the characters alone.
pub uninterp spec fn constant_case_of(s: Seq<char>) -> Seq<char>;

/// Relies on convert_case::Casing::to_case with Case::ScreamingSnake: a pure
/// case transformation of its input text (upper-case words joined by
/// underscores), depending on the characters alone.
#[verifier::external_body]
pub(crate) fn to_constant_case(s: &str) -> (r: String)
    ensures
        r@ == constant_case_of(s@),
{
    convert_case::Casing::to_case(&s, convert_case::Case::ScreamingSnake)
}

/// Law: resolving an enumeration variant to its foreign constant's name is
/// deterministic. Every enumeration of the library resolves a variant by
/// applying the constant-case transformation to the variant's name, so two
/// resolutions of the same name always give the same constant name, within
/// one execution context and across them.
pub proof fn lemma_resolution_deterministic(name: Seq<char>, r1: Seq<char>, r2: Seq<char>)
    requires
        r1 == constant_case_of(name),
        r2 == constant_case_of(name),
    ensures
        r1 == r2,
{
}

} // verus!
