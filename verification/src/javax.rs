//! Handles for the foreign runtime's image-reading utilities.

use vstd::prelude::*;
use jni::JNIEnv;
use jni::objects::JObject;
use crate::dispatch;
use crate::error::ForeignCallError;
use crate::handle::Handle;
use crate::java::BufferedImage;
use crate::java::ByteArrayInputStream;

verus! {

/// The foreign image-reading facade; offers only static operations.
pub struct ImageIO<'a>(pub(crate) JObject<'a>);

impl<'a> Handle<'a> for ImageIO<'a> {
    closed spec fn captured(&self) -> JObject<'a> {
        self.0
    }

    fn as_obj(&self) -> (r: &JObject<'a>) {
        proof {
            assert(self.captured() == self.0);
        }
        &self.0
    }
}

/// A foreign stream of image data, as the foreign image reader consumes it.
pub struct ImageInputStream<'a>(pub(crate) JObject<'a>);

impl<'a> Handle<'a> for ImageInputStream<'a> {
    closed spec fn captured(&self) -> JObject<'a> {
        self.0
    }

    fn as_obj(&self) -> (r: &JObject<'a>) {
        proof {
            assert(self.captured() == self.0);
        }
        &self.0
    }
}

impl<'a> ImageIO<'a> {
    /// Turns a foreign byte source into a foreign image input stream. A
    /// null reference from the foreign reader (no suitable stream) is a
    /// fault, never a handle.
    pub fn create_image_input_stream(
        byte_stream: ByteArrayInputStream<'a>,
        env: &mut JNIEnv<'a>,
    ) -> (r: Result<ImageInputStream<'a>, ForeignCallError>)
        ensures
            r matches Err(e) ==> (e is Runtime || e is NullObject),
    {
        let value = match dispatch::call_static_method(
            env,
            "javax/imageio/ImageIO",
            "createImageInputStream",
            "(Ljava/lang/Object;)Ljavax/imageio/stream/ImageInputStream;",
            &[dispatch::arg_obj(byte_stream.as_obj())],
        ) {
            Ok(v) => v,
            Err(err) => {
                return Err(ForeignCallError::Runtime(err));
            },
        };
        let obj = match dispatch::value_object(value) {
            Ok(v) => v,
            Err(err) => {
                return Err(ForeignCallError::Runtime(err));
            },
        };
        if dispatch::obj_is_null(&obj) {
            return Err(ForeignCallError::NullObject);
        }
        Ok(ImageInputStream(obj))
    }

    /// Decodes an image from a foreign image input stream. A null reference
    /// from the foreign reader (no registered decoder) is a fault, never a
    /// handle.
    pub fn read_image_input_stream(
        image_input_stream: ImageInputStream<'a>,
        env: &mut JNIEnv<'a>,
    ) -> (r: Result<BufferedImage<'a>, ForeignCallError>)
        ensures
            r matches Err(e) ==> (e is Runtime || e is NullObject),
    {
        let value = match dispatch::call_static_method(
            env,
            "javax/imageio/ImageIO",
            "read",
            "(Ljavax/imageio/stream/ImageInputStream;)Ljava/awt/image/BufferedImage;",
            &[dispatch::arg_obj(image_input_stream.as_obj())],
        ) {
            Ok(v) => v,
            Err(err) => {
                return Err(ForeignCallError::Runtime(err));
            },
        };
        let obj = match dispatch::value_object(value) {
            Ok(v) => v,
            Err(err) => {
                return Err(ForeignCallError::Runtime(err));
            },
        };
        if dispatch::obj_is_null(&obj) {
            return Err(ForeignCallError::NullObject);
        }
        Ok(BufferedImage::from_raw(obj))
    }
}

impl<'a> ImageInputStream<'a> {
    /// Wraps a raw foreign reference without validating its runtime class.
    pub fn from_raw(obj: JObject<'a>) -> (r: Self)
        ensures
            r.captured() == obj,
    {
        ImageInputStream(obj)
    }

    /// Turns a foreign byte source into a foreign image input stream.
    pub fn new_from_byte_stream(
        byte_stream: ByteArrayInputStream<'a>,
        env: &mut JNIEnv<'a>,
    ) -> (r: Result<Self, ForeignCallError>)
        ensures
            r matches Err(e) ==> (e is Runtime || e is NullObject),
    {
        ImageIO::create_image_input_stream(byte_stream, env)
    }
}

} // verus!
