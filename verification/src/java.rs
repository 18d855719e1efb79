//! Handles for the foreign runtime's core stream and image classes.

use vstd::prelude::*;
use jni::JNIEnv;
use jni::objects::JObject;
use crate::dispatch;
use crate::error::ForeignCallError;
use crate::handle::Handle;
use crate::javax::ImageIO;
use crate::javax::ImageInputStream;
use crate::marshal;

verus! {

/// A growable foreign byte sink; a document writes its output here, and the
/// collected bytes are read back after the document is closed.
pub struct ByteArrayOutputStream<'a>(pub(crate) JObject<'a>);

impl<'a> Handle<'a> for ByteArrayOutputStream<'a> {
    closed spec fn captured(&self) -> JObject<'a> {
        self.0
    }

    fn as_obj(&self) -> (r: &JObject<'a>) {
        proof {
            assert(self.captured() == self.0);
        }
        &self.0
    }
}

impl<'a> ByteArrayOutputStream<'a> {
    /// Wraps a raw foreign reference without validating its runtime class.
    pub fn from_raw(obj: JObject<'a>) -> (r: Self)
        ensures
            r.captured() == obj,
    {
        ByteArrayOutputStream(obj)
    }

    /// Allocates an empty foreign byte sink.
    pub fn new(env: &mut JNIEnv<'a>) -> (r: Result<Self, ForeignCallError>)
        ensures
            r matches Err(e) ==> e is Runtime,
    {
        let obj = match dispatch::new_object(env, "java/io/ByteArrayOutputStream", "()V", &[]) {
            Ok(v) => v,
            Err(err) => {
                return Err(ForeignCallError::Runtime(err));
            },
        };
        Ok(ByteArrayOutputStream(obj))
    }

    /// Copies the sink's collected bytes back to the native side, with the
    /// signedness reinterpretation undone element by element. Reading before
    /// the producing document is closed yields an incomplete or empty buffer.
    pub fn to_byte_array(&self, env: &mut JNIEnv<'a>) -> (r: Result<Vec<u8>, ForeignCallError>)
        ensures
            r matches Ok(bytes) ==> crate::fits_foreign_len(bytes@.len()),
            r matches Err(e) ==> e is Runtime,
    {
        let value = match dispatch::call_method(env, self.as_obj(), "toByteArray", "()[B", &[]) {
            Ok(v) => v,
            Err(err) => {
                return Err(ForeignCallError::Runtime(err));
            },
        };
        let array = match dispatch::value_object(value) {
            Ok(v) => v,
            Err(err) => {
                return Err(ForeignCallError::Runtime(err));
            },
        };
        let length = match dispatch::get_array_length(env, &array) {
            Ok(v) => v,
            Err(err) => {
                return Err(ForeignCallError::Runtime(err));
            },
        };
        let mut buf = zeroed_signed_bytes(length as usize);
        match dispatch::get_byte_array_region(env, &array, 0, &mut buf) {
            Ok(_) => (),
            Err(err) => {
                return Err(ForeignCallError::Runtime(err));
            },
        }
        Ok(marshal::unmarshal_bytes(buf.as_slice()))
    }
}

/// A zero-filled signed-byte buffer of the given length, ready to receive a
/// foreign array region.
fn zeroed_signed_bytes(n: usize) -> (r: Vec<i8>)
    ensures
        r@.len() == n,
{
    let mut out: Vec<i8> = Vec::new();
    let mut k: usize = 0;
    while k < n
        invariant
            out@.len() == k,
            k <= n,
        decreases n - k,
    {
        out.push(0i8);
        k = k + 1;
    }
    out
}

/// A foreign byte source initialized with a copy of a native buffer.
pub struct ByteArrayInputStream<'a>(pub(crate) JObject<'a>);

impl<'a> Handle<'a> for ByteArrayInputStream<'a> {
    closed spec fn captured(&self) -> JObject<'a> {
        self.0
    }

    fn as_obj(&self) -> (r: &JObject<'a>) {
        proof {
            assert(self.captured() == self.0);
        }
        &self.0
    }
}

impl<'a> ByteArrayInputStream<'a> {
    /// Wraps a raw foreign reference without validating its runtime class.
    pub fn from_raw(obj: JObject<'a>) -> (r: Self)
        ensures
            r.captured() == obj,
    {
        ByteArrayInputStream(obj)
    }

    /// Allocates a foreign byte source holding a copy of the given buffer,
    /// marshaled element by element into the foreign signed representation.
    pub fn new(bytes: &[u8], env: &mut JNIEnv<'a>) -> (r: Result<Self, ForeignCallError>)
        requires
            crate::fits_foreign_len(bytes@.len()),
        ensures
            r matches Err(e) ==> e is Runtime,
    {
        let signed = marshal::marshal_bytes(bytes);
        let array = match dispatch::new_byte_array(env, bytes.len() as i32) {
            Ok(v) => v,
            Err(err) => {
                return Err(ForeignCallError::Runtime(err));
            },
        };
        match dispatch::set_byte_array_region(env, &array, 0, signed.as_slice()) {
            Ok(_) => (),
            Err(err) => {
                return Err(ForeignCallError::Runtime(err));
            },
        }
        let obj = match dispatch::new_object(
            env,
            "java/io/ByteArrayInputStream",
            "([B)V",
            &[dispatch::arg_obj(&array)],
        ) {
            Ok(v) => v,
            Err(err) => {
                return Err(ForeignCallError::Runtime(err));
            },
        };
        Ok(ByteArrayInputStream(obj))
    }
}

/// A decoded foreign image, produced by the foreign image reader.
pub struct BufferedImage<'a>(pub(crate) JObject<'a>);

impl<'a> Handle<'a> for BufferedImage<'a> {
    closed spec fn captured(&self) -> JObject<'a> {
        self.0
    }

    fn as_obj(&self) -> (r: &JObject<'a>) {
        proof {
            assert(self.captured() == self.0);
        }
        &self.0
    }
}

impl<'a> BufferedImage<'a> {
    /// Wraps a raw foreign reference without validating its runtime class.
    pub fn from_raw(obj: JObject<'a>) -> (r: Self)
        ensures
            r.captured() == obj,
    {
        BufferedImage(obj)
    }

    /// Decodes an image from a foreign image input stream.
    pub fn new_from_image_input_stream(
        image_input_stream: ImageInputStream<'a>,
        env: &mut JNIEnv<'a>,
    ) -> (r: Result<Self, ForeignCallError>)
        ensures
            r matches Err(e) ==> (e is Runtime || e is NullObject),
    {
        ImageIO::read_image_input_stream(image_input_stream, env)
    }

    /// Reads the decoded image's width in pixels.
    pub fn get_width(&self, env: &mut JNIEnv<'a>) -> (r: Result<i32, ForeignCallError>)
        ensures
            r matches Err(e) ==> e is Runtime,
    {
        let value = match dispatch::call_method(env, self.as_obj(), "getWidth", "()I", &[]) {
            Ok(v) => v,
            Err(err) => {
                return Err(ForeignCallError::Runtime(err));
            },
        };
        match dispatch::value_int(value) {
            Ok(v) => Ok(v),
            Err(err) => Err(ForeignCallError::Runtime(err)),
        }
    }

    /// Reads the decoded image's height in pixels.
    pub fn get_height(&self, env: &mut JNIEnv<'a>) -> (r: Result<i32, ForeignCallError>)
        ensures
            r matches Err(e) ==> e is Runtime,
    {
        let value = match dispatch::call_method(env, self.as_obj(), "getHeight", "()I", &[]) {
            Ok(v) => v,
            Err(err) => {
                return Err(ForeignCallError::Runtime(err));
            },
        };
        match dispatch::value_int(value) {
            Ok(v) => Ok(v),
            Err(err) => Err(ForeignCallError::Runtime(err)),
        }
    }
}

} // verus!
