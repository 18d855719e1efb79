//! Handles for the foreign library's kernel layer: documents, writers,
//! geometry, colors, fonts and low-level canvases.

use vstd::prelude::*;
use jni::JNIEnv;
use jni::objects::JObject;
use crate::dec::Dec;
use crate::dispatch;
use crate::error::ForeignCallError;
use crate::handle::Handle;
use crate::io::{FontProgram, ImageData, PdfEncodings, StandardFont};
use crate::java::ByteArrayOutputStream;

verus! {

/// The foreign document object: the root of everything written to one
/// output.
pub struct PdfDocument<'a>(pub(crate) JObject<'a>);

impl<'a> Handle<'a> for PdfDocument<'a> {
    closed spec fn captured(&self) -> JObject<'a> {
        self.0
    }

    fn as_obj(&self) -> (r: &JObject<'a>) {
        proof {
            assert(self.captured() == self.0);
        }
        &self.0
    }
}

impl<'a> PdfDocument<'a> {
    /// Wraps a raw foreign reference without validating its runtime class.
    pub fn from_raw(obj: JObject<'a>) -> (r: Self)
        ensures
            r.captured() == obj,
    {
        PdfDocument(obj)
    }

    /// Allocates a foreign document writing through the given writer.
    pub fn new(writer: &PdfWriter<'a>, env: &mut JNIEnv<'a>) -> (r: Result<Self, ForeignCallError>)
        ensures
            r matches Err(e) ==> e is Runtime,
    {
        let obj = match dispatch::new_object(
            env,
            "com/itextpdf/kernel/pdf/PdfDocument",
            "(Lcom/itextpdf/kernel/pdf/PdfWriter;)V",
            &[dispatch::arg_obj(writer.as_obj())],
        ) {
            Ok(v) => v,
            Err(err) => {
                return Err(ForeignCallError::Runtime(err));
            },
        };
        Ok(PdfDocument(obj))
    }

    /// Reads the document's default page size.
    pub fn get_default_page_size(&self, env: &mut JNIEnv<'a>) -> (r: Result<
        PageSize<'a>,
        ForeignCallError,
    >)
        ensures
            r matches Err(e) ==> e is Runtime,
    {
        let value = match dispatch::call_method(
            env,
            self.as_obj(),
            "getDefaultPageSize",
            "()Lcom/itextpdf/kernel/geom/PageSize;",
            &[],
        ) {
            Ok(v) => v,
            Err(err) => {
                return Err(ForeignCallError::Runtime(err));
            },
        };
        let obj = match dispatch::value_object(value) {
            Ok(v) => v,
            Err(err) => {
                return Err(ForeignCallError::Runtime(err));
            },
        };
        Ok(PageSize(obj))
    }

    /// Reads the page with the given one-based number.
    pub fn get_page(&self, page_num: i32, env: &mut JNIEnv<'a>) -> (r: Result<
        PdfPage<'a>,
        ForeignCallError,
    >)
        ensures
            r matches Err(e) ==> e is Runtime,
    {
        let value = match dispatch::call_method(
            env,
            self.as_obj(),
            "getPage",
            "(I)Lcom/itextpdf/kernel/pdf/PdfPage;",
            &[dispatch::arg_int(page_num)],
        ) {
            Ok(v) => v,
            Err(err) => {
                return Err(ForeignCallError::Runtime(err));
            },
        };
        let obj = match dispatch::value_object(value) {
            Ok(v) => v,
            Err(err) => {
                return Err(ForeignCallError::Runtime(err));
            },
        };
        Ok(PdfPage(obj))
    }

    /// Reads the document's current number of pages.
    pub fn get_number_of_pages(&self, env: &mut JNIEnv<'a>) -> (r: Result<i32, ForeignCallError>)
        ensures
            r matches Err(e) ==> e is Runtime,
    {
        let value = match dispatch::call_method(env, self.as_obj(), "getNumberOfPages", "()I", &[]) {
            Ok(v) => v,
            Err(err) => {
                return Err(ForeignCallError::Runtime(err));
            },
        };
        match dispatch::value_int(value) {
            Ok(v) => Ok(v),
            Err(err) => Err(ForeignCallError::Runtime(err)),
        }
    }
}

/// The foreign writer that serializes a document into a byte sink.
pub struct PdfWriter<'a>(pub(crate) JObject<'a>);

impl<'a> Handle<'a> for PdfWriter<'a> {
    closed spec fn captured(&self) -> JObject<'a> {
        self.0
    }

    fn as_obj(&self) -> (r: &JObject<'a>) {
        proof {
            assert(self.captured() == self.0);
        }
        &self.0
    }
}

impl<'a> PdfWriter<'a> {
    /// Wraps a raw foreign reference without validating its runtime class.
    pub fn from_raw(obj: JObject<'a>) -> (r: Self)
        ensures
            r.captured() == obj,
    {
        PdfWriter(obj)
    }

    /// Allocates a foreign writer emitting into the given byte sink.
    pub fn new(byte_stream: &ByteArrayOutputStream<'a>, env: &mut JNIEnv<'a>) -> (r: Result<
        Self,
        ForeignCallError,
    >)
        ensures
            r matches Err(e) ==> e is Runtime,
    {
        let obj = match dispatch::new_object(
            env,
            "com/itextpdf/kernel/pdf/PdfWriter",
            "(Ljava/io/OutputStream;)V",
            &[dispatch::arg_obj(byte_stream.as_obj())],
        ) {
            Ok(v) => v,
            Err(err) => {
                return Err(ForeignCallError::Runtime(err));
            },
        };
        Ok(PdfWriter(obj))
    }
}

/// A foreign solid-line drawer, used for separators.
pub struct SolidLine<'a>(pub(crate) JObject<'a>);

impl<'a> Handle<'a> for SolidLine<'a> {
    closed spec fn captured(&self) -> JObject<'a> {
        self.0
    }

    fn as_obj(&self) -> (r: &JObject<'a>) {
        proof {
            assert(self.captured() == self.0);
        }
        &self.0
    }
}

impl<'a> SolidLine<'a> {
    /// Wraps a raw foreign reference without validating its runtime class.
    pub fn from_raw(obj: JObject<'a>) -> (r: Self)
        ensures
            r.captured() == obj,
    {
        SolidLine(obj)
    }

    /// Allocates a solid line of the given width in point units.
    pub fn new(line_width: Dec, env: &mut JNIEnv<'a>) -> (r: Result<Self, ForeignCallError>)
        ensures
            r matches Err(e) ==> e is Runtime,
    {
        let width_value = match crate::marshal::float_value(env, &line_width) {
            Ok(v) => v,
            Err(err) => {
                return Err(err);
            },
        };
        let obj = match dispatch::new_object(
            env,
            "com/itextpdf/kernel/pdf/canvas/draw/SolidLine",
            "(F)V",
            &[dispatch::arg_of_value(&width_value)],
        ) {
            Ok(v) => v,
            Err(err) => {
                return Err(ForeignCallError::Runtime(err));
            },
        };
        Ok(SolidLine(obj))
    }

    /// Sets the line's color to a named constant, resolving the constant
    /// through the dispatcher first.
    pub fn set_color(&self, color: ColorConstant, env: &mut JNIEnv<'a>) -> (r: Result<
        (),
        ForeignCallError,
    >)
        ensures
            r matches Err(e) ==> e is Runtime,
    {
        let color_obj = match color.get_java_value(env) {
            Ok(v) => v,
            Err(err) => {
                return Err(err);
            },
        };
        match dispatch::call_method(
            env,
            self.as_obj(),
            "setColor",
            "(Lcom/itextpdf/kernel/colors/Color;)V",
            &[dispatch::arg_obj(&color_obj)],
        ) {
            Ok(_) => (),
            Err(err) => {
                return Err(ForeignCallError::Runtime(err));
            },
        }
        Ok(())
    }
}

/// A foreign color value.
pub struct Color<'a>(pub(crate) JObject<'a>);

impl<'a> Handle<'a> for Color<'a> {
    closed spec fn captured(&self) -> JObject<'a> {
        self.0
    }

    fn as_obj(&self) -> (r: &JObject<'a>) {
        proof {
            assert(self.captured() == self.0);
        }
        &self.0
    }
}

impl<'a> Color<'a> {
    /// Wraps a raw foreign reference without validating its runtime class.
    pub fn from_raw(obj: JObject<'a>) -> (r: Self)
        ensures
            r.captured() == obj,
    {
        Color(obj)
    }

    /// Allocates a device-RGB color from three channel quantities between
    /// zero and one.
    pub fn from_rgb(r: Dec, g: Dec, b: Dec, env: &mut JNIEnv<'a>) -> (res: Result<
        Self,
        ForeignCallError,
    >)
        ensures
            res matches Err(e) ==> e is Runtime,
    {
        let rv = match crate::marshal::float_value(env, &r) {
            Ok(v) => v,
            Err(err) => {
                return Err(err);
            },
        };
        let gv = match crate::marshal::float_value(env, &g) {
            Ok(v) => v,
            Err(err) => {
                return Err(err);
            },
        };
        let bv = match crate::marshal::float_value(env, &b) {
            Ok(v) => v,
            Err(err) => {
                return Err(err);
            },
        };
        let obj = match dispatch::new_object(
            env,
            "com/itextpdf/kernel/colors/DeviceRgb",
            "(FFF)V",
            &[
                dispatch::arg_of_value(&rv),
                dispatch::arg_of_value(&gv),
                dispatch::arg_of_value(&bv),
            ],
        ) {
            Ok(v) => v,
            Err(err) => {
                return Err(ForeignCallError::Runtime(err));
            },
        };
        Ok(Color(obj))
    }

    /// Resolves a named color constant to a foreign color value.
    pub fn from_constant(constant: ColorConstant, env: &mut JNIEnv<'a>) -> (r: Result<
        Self,
        ForeignCallError,
    >)
        ensures
            r matches Err(e) ==> e is Runtime,
    {
        match constant.get_java_value(env) {
            Ok(v) => Ok(Color(v)),
            Err(err) => Err(err),
        }
    }
}

/// The closed enumeration of the foreign library's named colors. Each
/// variant maps deterministically to a constant of the foreign library's
/// color-constants class.
#[derive(Debug, Clone)]
pub enum ColorConstant {
    Black,
    Blue,
    Cyan,
    DarkGray,
    Gray,
    Green,
    LightGray,
    Magenta,
    Orange,
    Pink,
    Red,
    White,
    Yellow,
}

impl ColorConstant {
    /// The variant's name, the input of the constant-name transformation.
    pub open spec fn spec_name(&self) -> Seq<char> {
        match self {
            ColorConstant::Black => "Black"@,
            ColorConstant::Blue => "Blue"@,
            ColorConstant::Cyan => "Cyan"@,
            ColorConstant::DarkGray => "DarkGray"@,
            ColorConstant::Gray => "Gray"@,
            ColorConstant::Green => "Green"@,
            ColorConstant::LightGray => "LightGray"@,
            ColorConstant::Magenta => "Magenta"@,
            ColorConstant::Orange => "Orange"@,
            ColorConstant::Pink => "Pink"@,
            ColorConstant::Red => "Red"@,
            ColorConstant::White => "White"@,
            ColorConstant::Yellow => "Yellow"@,
        }
    }

    /// The variant's name as a native string.
    pub fn variant_name(&self) -> (r: &'static str)
        ensures
            r@ == self.spec_name(),
    {
        match self {
            ColorConstant::Black => "Black",
            ColorConstant::Blue => "Blue",
            ColorConstant::Cyan => "Cyan",
            ColorConstant::DarkGray => "DarkGray",
            ColorConstant::Gray => "Gray",
            ColorConstant::Green => "Green",
            ColorConstant::LightGray => "LightGray",
            ColorConstant::Magenta => "Magenta",
            ColorConstant::Orange => "Orange",
            ColorConstant::Pink => "Pink",
            ColorConstant::Red => "Red",
            ColorConstant::White => "White",
            ColorConstant::Yellow => "Yellow",
        }
    }

    /// The name of the foreign constant this variant resolves to: the
    /// variant's name under the constant-case transformation.
    pub fn constant_field_name(&self) -> (r: String)
        ensures
            r@ == dispatch::constant_case_of(self.spec_name()),
    {
        dispatch::to_constant_case(self.variant_name())
    }

    /// Resolves the variant to its foreign constant by a field lookup against
    /// the foreign color-constants class.
    pub(crate) fn get_java_value<'e>(&self, env: &mut JNIEnv<'e>) -> (r: Result<
        JObject<'e>,
        ForeignCallError,
    >)
        ensures
            r matches Err(e) ==> e is Runtime,
    {
        let field_name = self.constant_field_name();
        let value = match dispatch::get_static_field(
            env,
            "com/itextpdf/kernel/colors/ColorConstants",
            field_name.as_str(),
            "Lcom/itextpdf/kernel/colors/Color;",
        ) {
            Ok(v) => v,
            Err(err) => {
                return Err(ForeignCallError::Runtime(err));
            },
        };
        match dispatch::value_object(value) {
            Ok(v) => Ok(v),
            Err(err) => Err(ForeignCallError::Runtime(err)),
        }
    }
}

/// A foreign page-size value: a named preset or a custom extent.
pub struct PageSize<'a>(pub(crate) JObject<'a>);

impl<'a> Handle<'a> for PageSize<'a> {
    closed spec fn captured(&self) -> JObject<'a> {
        self.0
    }

    fn as_obj(&self) -> (r: &JObject<'a>) {
        proof {
            assert(self.captured() == self.0);
        }
        &self.0
    }
}

impl<'a> PageSize<'a> {
    /// Wraps a raw foreign reference without validating its runtime class.
    pub fn from_raw(obj: JObject<'a>) -> (r: Self)
        ensures
            r.captured() == obj,
    {
        PageSize(obj)
    }

    /// Reads one of the named page-size presets from the foreign page-size
    /// class.
    fn from_preset_field(env: &mut JNIEnv<'a>, field: &str) -> (r: Result<Self, ForeignCallError>)
        ensures
            r matches Err(e) ==> e is Runtime,
    {
        let value = match dispatch::get_static_field(
            env,
            "com/itextpdf/kernel/geom/PageSize",
            field,
            "Lcom/itextpdf/kernel/geom/PageSize;",
        ) {
            Ok(v) => v,
            Err(err) => {
                return Err(ForeignCallError::Runtime(err));
            },
        };
        match dispatch::value_object(value) {
            Ok(v) => Ok(PageSize(v)),
            Err(err) => Err(ForeignCallError::Runtime(err)),
        }
    }

    /// Allocates a custom page size of the given extent in point units.
    pub fn new(width: Dec, height: Dec, env: &mut JNIEnv<'a>) -> (r: Result<Self, ForeignCallError>)
        ensures
            r matches Err(e) ==> e is Runtime,
    {
        let wv = match crate::marshal::float_value(env, &width) {
            Ok(v) => v,
            Err(err) => {
                return Err(err);
            },
        };
        let hv = match crate::marshal::float_value(env, &height) {
            Ok(v) => v,
            Err(err) => {
                return Err(err);
            },
        };
        let obj = match dispatch::new_object(
            env,
            "com/itextpdf/kernel/geom/PageSize",
            "(FF)V",
            &[dispatch::arg_of_value(&wv), dispatch::arg_of_value(&hv)],
        ) {
            Ok(v) => v,
            Err(err) => {
                return Err(ForeignCallError::Runtime(err));
            },
        };
        Ok(PageSize(obj))
    }

    /// Reads the page's width as a decimal quantity, through the decimal
    /// text the foreign runtime prints for it; a reading the runtime prints
    /// in exponent notation is a number-format fault.
    pub fn get_width(&self, env: &mut JNIEnv<'a>) -> Result<Dec, ForeignCallError> {
        let value = match dispatch::call_method(env, self.as_obj(), "getWidth", "()F", &[]) {
            Ok(v) => v,
            Err(err) => {
                return Err(ForeignCallError::Runtime(err));
            },
        };
        let text = match crate::marshal::float_text(env, &value) {
            Ok(v) => v,
            Err(err) => {
                return Err(err);
            },
        };
        Dec::parse_decimal_text(text.as_str())
    }

    /// Reads the page's height as a decimal quantity, through the decimal
    /// text the foreign runtime prints for it; a reading the runtime prints
    /// in exponent notation is a number-format fault.
    pub fn get_height(&self, env: &mut JNIEnv<'a>) -> Result<Dec, ForeignCallError> {
        let value = match dispatch::call_method(env, self.as_obj(), "getHeight", "()F", &[]) {
            Ok(v) => v,
            Err(err) => {
                return Err(ForeignCallError::Runtime(err));
            },
        };
        let text = match crate::marshal::float_text(env, &value) {
            Ok(v) => v,
            Err(err) => {
                return Err(err);
            },
        };
        Dec::parse_decimal_text(text.as_str())
    }
}

/// The named page-size presets of the foreign library, one constructor
/// per preset.
impl<'a> PageSize<'a> {
    /// The named page-size preset `A0`, read as a zero-argument field
    /// lookup against the foreign page-size class.
    pub fn new_a0(env: &mut JNIEnv<'a>) -> (r: Result<Self, ForeignCallError>)
        ensures
            r matches Err(e) ==> e is Runtime,
    {
        Self::from_preset_field(env, "A0")
    }

    /// The named page-size preset `A1`, read as a zero-argument field
    /// lookup against the foreign page-size class.
    pub fn new_a1(env: &mut JNIEnv<'a>) -> (r: Result<Self, ForeignCallError>)
        ensures
            r matches Err(e) ==> e is Runtime,
    {
        Self::from_preset_field(env, "A1")
    }

    /// The named page-size preset `A2`, read as a zero-argument field
    /// lookup against the foreign page-size class.
    pub fn new_a2(env: &mut JNIEnv<'a>) -> (r: Result<Self, ForeignCallError>)
        ensures
            r matches Err(e) ==> e is Runtime,
    {
        Self::from_preset_field(env, "A2")
    }

    /// The named page-size preset `A3`, read as a zero-argument field
    /// lookup against the foreign page-size class.
    pub fn new_a3(env: &mut JNIEnv<'a>) -> (r: Result<Self, ForeignCallError>)
        ensures
            r matches Err(e) ==> e is Runtime,
    {
        Self::from_preset_field(env, "A3")
    }

    /// The named page-size preset `A4`, read as a zero-argument field
    /// lookup against the foreign page-size class.
    pub fn new_a4(env: &mut JNIEnv<'a>) -> (r: Result<Self, ForeignCallError>)
        ensures
            r matches Err(e) ==> e is Runtime,
    {
        Self::from_preset_field(env, "A4")
    }

    /// The named page-size preset `A5`, read as a zero-argument field
    /// lookup against the foreign page-size class.
    pub fn new_a5(env: &mut JNIEnv<'a>) -> (r: Result<Self, ForeignCallError>)
        ensures
            r matches Err(e) ==> e is Runtime,
    {
        Self::from_preset_field(env, "A5")
    }

    /// The named page-size preset `A6`, read as a zero-argument field
    /// lookup against the foreign page-size class.
    pub fn new_a6(env: &mut JNIEnv<'a>) -> (r: Result<Self, ForeignCallError>)
        ensures
            r matches Err(e) ==> e is Runtime,
    {
        Self::from_preset_field(env, "A6")
    }

    /// The named page-size preset `A7`, read as a zero-argument field
    /// lookup against the foreign page-size class.
    pub fn new_a7(env: &mut JNIEnv<'a>) -> (r: Result<Self, ForeignCallError>)
        ensures
            r matches Err(e) ==> e is Runtime,
    {
        Self::from_preset_field(env, "A7")
    }

    /// The named page-size preset `A8`, read as a zero-argument field
    /// lookup against the foreign page-size class.
    pub fn new_a8(env: &mut JNIEnv<'a>) -> (r: Result<Self, ForeignCallError>)
        ensures
            r matches Err(e) ==> e is Runtime,
    {
        Self::from_preset_field(env, "A8")
    }

    /// The named page-size preset `A9`, read as a zero-argument field
    /// lookup against the foreign page-size class.
    pub fn new_a9(env: &mut JNIEnv<'a>) -> (r: Result<Self, ForeignCallError>)
        ensures
            r matches Err(e) ==> e is Runtime,
    {
        Self::from_preset_field(env, "A9")
    }

    /// The named page-size preset `A10`, read as a zero-argument field
    /// lookup against the foreign page-size class.
    pub fn new_a10(env: &mut JNIEnv<'a>) -> (r: Result<Self, ForeignCallError>)
        ensures
            r matches Err(e) ==> e is Runtime,
    {
        Self::from_preset_field(env, "A10")
    }

    /// The named page-size preset `B0`, read as a zero-argument field
    /// lookup against the foreign page-size class.
    pub fn new_b0(env: &mut JNIEnv<'a>) -> (r: Result<Self, ForeignCallError>)
        ensures
            r matches Err(e) ==> e is Runtime,
    {
        Self::from_preset_field(env, "B0")
    }

    /// The named page-size preset `B1`, read as a zero-argument field
    /// lookup against the foreign page-size class.
    pub fn new_b1(env: &mut JNIEnv<'a>) -> (r: Result<Self, ForeignCallError>)
        ensures
            r matches Err(e) ==> e is Runtime,
    {
        Self::from_preset_field(env, "B1")
    }

    /// The named page-size preset `B2`, read as a zero-argument field
    /// lookup against the foreign page-size class.
    pub fn new_b2(env: &mut JNIEnv<'a>) -> (r: Result<Self, ForeignCallError>)
        ensures
            r matches Err(e) ==> e is Runtime,
    {
        Self::from_preset_field(env, "B2")
    }

    /// The named page-size preset `B3`, read as a zero-argument field
    /// lookup against the foreign page-size class.
    pub fn new_b3(env: &mut JNIEnv<'a>) -> (r: Result<Self, ForeignCallError>)
        ensures
            r matches Err(e) ==> e is Runtime,
    {
        Self::from_preset_field(env, "B3")
    }

    /// The named page-size preset `B4`, read as a zero-argument field
    /// lookup against the foreign page-size class.
    pub fn new_b4(env: &mut JNIEnv<'a>) -> (r: Result<Self, ForeignCallError>)
        ensures
            r matches Err(e) ==> e is Runtime,
    {
        Self::from_preset_field(env, "B4")
    }

    /// The named page-size preset `B5`, read as a zero-argument field
    /// lookup against the foreign page-size class.
    pub fn new_b5(env: &mut JNIEnv<'a>) -> (r: Result<Self, ForeignCallError>)
        ensures
            r matches Err(e) ==> e is Runtime,
    {
        Self::from_preset_field(env, "B5")
    }

    /// The named page-size preset `B6`, read as a zero-argument field
    /// lookup against the foreign page-size class.
    pub fn new_b6(env: &mut JNIEnv<'a>) -> (r: Result<Self, ForeignCallError>)
        ensures
            r matches Err(e) ==> e is Runtime,
    {
        Self::from_preset_field(env, "B6")
    }

    /// The named page-size preset `B7`, read as a zero-argument field
    /// lookup against the foreign page-size class.
    pub fn new_b7(env: &mut JNIEnv<'a>) -> (r: Result<Self, ForeignCallError>)
        ensures
            r matches Err(e) ==> e is Runtime,
    {
        Self::from_preset_field(env, "B7")
    }

    /// The named page-size preset `B8`, read as a zero-argument field
    /// lookup against the foreign page-size class.
    pub fn new_b8(env: &mut JNIEnv<'a>) -> (r: Result<Self, ForeignCallError>)
        ensures
            r matches Err(e) ==> e is Runtime,
    {
        Self::from_preset_field(env, "B8")
    }

    /// The named page-size preset `B9`, read as a zero-argument field
    /// lookup against the foreign page-size class.
    pub fn new_b9(env: &mut JNIEnv<'a>) -> (r: Result<Self, ForeignCallError>)
        ensures
            r matches Err(e) ==> e is Runtime,
    {
        Self::from_preset_field(env, "B9")
    }

    /// The named page-size preset `B10`, read as a zero-argument field
    /// lookup against the foreign page-size class.
    pub fn new_b10(env: &mut JNIEnv<'a>) -> (r: Result<Self, ForeignCallError>)
        ensures
            r matches Err(e) ==> e is Runtime,
    {
        Self::from_preset_field(env, "B10")
    }

    /// The named page-size preset `EXECUTIVE`, read as a zero-argument field
    /// lookup against the foreign page-size class.
    pub fn new_executive(env: &mut JNIEnv<'a>) -> (r: Result<Self, ForeignCallError>)
        ensures
            r matches Err(e) ==> e is Runtime,
    {
        Self::from_preset_field(env, "EXECUTIVE")
    }

    /// The named page-size preset `LEDGER`, read as a zero-argument field
    /// lookup against the foreign page-size class.
    pub fn new_ledger(env: &mut JNIEnv<'a>) -> (r: Result<Self, ForeignCallError>)
        ensures
            r matches Err(e) ==> e is Runtime,
    {
        Self::from_preset_field(env, "LEDGER")
    }

    /// The named page-size preset `LEGAL`, read as a zero-argument field
    /// lookup against the foreign page-size class.
    pub fn new_legal(env: &mut JNIEnv<'a>) -> (r: Result<Self, ForeignCallError>)
        ensures
            r matches Err(e) ==> e is Runtime,
    {
        Self::from_preset_field(env, "LEGAL")
    }

    /// The named page-size preset `LETTER`, read as a zero-argument field
    /// lookup against the foreign page-size class.
    pub fn new_letter(env: &mut JNIEnv<'a>) -> (r: Result<Self, ForeignCallError>)
        ensures
            r matches Err(e) ==> e is Runtime,
    {
        Self::from_preset_field(env, "LETTER")
    }

    /// The named page-size preset `TABLOID`, read as a zero-argument field
    /// lookup against the foreign page-size class.
    pub fn new_tabloid(env: &mut JNIEnv<'a>) -> (r: Result<Self, ForeignCallError>)
        ensures
            r matches Err(e) ==> e is Runtime,
    {
        Self::from_preset_field(env, "TABLOID")
    }
}

/// A foreign font ready to be assigned to elements.
pub struct PdfFont<'a>(pub(crate) JObject<'a>);

impl<'a> Handle<'a> for PdfFont<'a> {
    closed spec fn captured(&self) -> JObject<'a> {
        self.0
    }

    fn as_obj(&self) -> (r: &JObject<'a>) {
        proof {
            assert(self.captured() == self.0);
        }
        &self.0
    }
}

impl<'a> PdfFont<'a> {
    /// Wraps a raw foreign reference without validating its runtime class.
    pub fn from_raw(obj: JObject<'a>) -> (r: Self)
        ensures
            r.captured() == obj,
    {
        PdfFont(obj)
    }
}

/// The foreign font factory; offers only static creation paths, overloaded
/// purely by argument shape and signature descriptor.
pub struct PdfFontFactory<'a>(pub(crate) JObject<'a>);

impl<'a> Handle<'a> for PdfFontFactory<'a> {
    closed spec fn captured(&self) -> JObject<'a> {
        self.0
    }

    fn as_obj(&self) -> (r: &JObject<'a>) {
        proof {
            assert(self.captured() == self.0);
        }
        &self.0
    }
}

impl<'a> PdfFontFactory<'a> {
    /// Creates a font from a built-in standard font, resolving the variant
    /// to its foreign constant first.
    pub fn create_from_standard_font(standard_font: StandardFont, env: &mut JNIEnv<'a>) -> (r: Result<
        PdfFont<'a>,
        ForeignCallError,
    >)
        ensures
            r matches Err(e) ==> e is Runtime,
    {
        let font = match standard_font.get_java_value(env) {
            Ok(v) => v,
            Err(err) => {
                return Err(err);
            },
        };
        let value = match dispatch::call_static_method(
            env,
            "com/itextpdf/kernel/font/PdfFontFactory",
            "createFont",
            "(Ljava/lang/String;)Lcom/itextpdf/kernel/font/PdfFont;",
            &[dispatch::arg_obj(&font)],
        ) {
            Ok(v) => v,
            Err(err) => {
                return Err(ForeignCallError::Runtime(err));
            },
        };
        match dispatch::value_object(value) {
            Ok(v) => Ok(PdfFont(v)),
            Err(err) => Err(ForeignCallError::Runtime(err)),
        }
    }

    /// Creates a font from a parsed font program.
    pub fn create_from_program(program: FontProgram<'a>, env: &mut JNIEnv<'a>) -> (r: Result<
        PdfFont<'a>,
        ForeignCallError,
    >)
        ensures
            r matches Err(e) ==> e is Runtime,
    {
        let value = match dispatch::call_static_method(
            env,
            "com/itextpdf/kernel/font/PdfFontFactory",
            "createFont",
            "(Lcom/itextpdf/io/font/FontProgram;)Lcom/itextpdf/kernel/font/PdfFont;",
            &[dispatch::arg_obj(program.as_obj())],
        ) {
            Ok(v) => v,
            Err(err) => {
                return Err(ForeignCallError::Runtime(err));
            },
        };
        match dispatch::value_object(value) {
            Ok(v) => Ok(PdfFont(v)),
            Err(err) => Err(ForeignCallError::Runtime(err)),
        }
    }

    /// Creates a font from a parsed font program with the given encoding,
    /// resolving the encoding to its foreign constant first.
    pub fn create_from_program_with_encoding(
        program: FontProgram<'a>,
        encoding: PdfEncodings,
        env: &mut JNIEnv<'a>,
    ) -> (r: Result<PdfFont<'a>, ForeignCallError>)
        ensures
            r matches Err(e) ==> e is Runtime,
    {
        let encoding_obj = match encoding.get_java_value(env) {
            Ok(v) => v,
            Err(err) => {
                return Err(err);
            },
        };
        let value = match dispatch::call_static_method(
            env,
            "com/itextpdf/kernel/font/PdfFontFactory",
            "createFont",
            "(Lcom/itextpdf/io/font/FontProgram;Ljava/lang/String;)Lcom/itextpdf/kernel/font/PdfFont;",
            &[dispatch::arg_obj(program.as_obj()), dispatch::arg_obj(&encoding_obj)],
        ) {
            Ok(v) => v,
            Err(err) => {
                return Err(ForeignCallError::Runtime(err));
            },
        };
        match dispatch::value_object(value) {
            Ok(v) => Ok(PdfFont(v)),
            Err(err) => Err(ForeignCallError::Runtime(err)),
        }
    }

    /// Creates a font from a parsed font program with the given encoding,
    /// embedding the program into the output.
    pub fn create_from_program_with_encoding_embedded(
        program: FontProgram<'a>,
        encoding: PdfEncodings,
        env: &mut JNIEnv<'a>,
    ) -> (r: Result<PdfFont<'a>, ForeignCallError>)
        ensures
            r matches Err(e) ==> e is Runtime,
    {
        let encoding_obj = match encoding.get_java_value(env) {
            Ok(v) => v,
            Err(err) => {
                return Err(err);
            },
        };
        let value = match dispatch::call_static_method(
            env,
            "com/itextpdf/kernel/font/PdfFontFactory",
            "createFont",
            "(Lcom/itextpdf/io/font/FontProgram;Ljava/lang/String;Z)Lcom/itextpdf/kernel/font/PdfFont;",
            &[
                dispatch::arg_obj(program.as_obj()),
                dispatch::arg_obj(&encoding_obj),
                dispatch::arg_bool(true),
            ],
        ) {
            Ok(v) => v,
            Err(err) => {
                return Err(ForeignCallError::Runtime(err));
            },
        };
        match dispatch::value_object(value) {
            Ok(v) => Ok(PdfFont(v)),
            Err(err) => Err(ForeignCallError::Runtime(err)),
        }
    }
}

/// A foreign low-level drawing canvas over one page.
pub struct PdfCanvas<'a>(pub(crate) JObject<'a>);

impl<'a> Handle<'a> for PdfCanvas<'a> {
    closed spec fn captured(&self) -> JObject<'a> {
        self.0
    }

    fn as_obj(&self) -> (r: &JObject<'a>) {
        proof {
            assert(self.captured() == self.0);
        }
        &self.0
    }
}

impl<'a> PdfCanvas<'a> {
    /// Wraps a raw foreign reference without validating its runtime class.
    pub fn from_raw(obj: JObject<'a>) -> (r: Self)
        ensures
            r.captured() == obj,
    {
        PdfCanvas(obj)
    }

    /// Allocates a canvas drawing onto the given page.
    pub fn new_with_page(page: &PdfPage<'a>, env: &mut JNIEnv<'a>) -> (r: Result<
        PdfCanvas<'a>,
        ForeignCallError,
    >)
        ensures
            r matches Err(e) ==> e is Runtime,
    {
        let obj = match dispatch::new_object(
            env,
            "com/itextpdf/kernel/pdf/canvas/PdfCanvas",
            "(Lcom/itextpdf/kernel/pdf/PdfPage;)V",
            &[dispatch::arg_obj(page.as_obj())],
        ) {
            Ok(v) => v,
            Err(err) => {
                return Err(ForeignCallError::Runtime(err));
            },
        };
        Ok(PdfCanvas(obj))
    }

    /// Saves the canvas's graphics state; chainable.
    pub fn save_state(&self, env: &mut JNIEnv<'a>) -> (r: Result<&Self, ForeignCallError>)
        ensures
            r matches Ok(me) ==> me == self,
            r matches Err(e) ==> e is Runtime,
    {
        match dispatch::call_method(
            env,
            self.as_obj(),
            "saveState",
            "()Lcom/itextpdf/kernel/pdf/canvas/PdfCanvas;",
            &[],
        ) {
            Ok(_) => (),
            Err(err) => {
                return Err(ForeignCallError::Runtime(err));
            },
        }
        Ok(self)
    }

    /// Restores the canvas's graphics state; chainable.
    pub fn restore_state(&self, env: &mut JNIEnv<'a>) -> (r: Result<&Self, ForeignCallError>)
        ensures
            r matches Ok(me) ==> me == self,
            r matches Err(e) ==> e is Runtime,
    {
        match dispatch::call_method(
            env,
            self.as_obj(),
            "restoreState",
            "()Lcom/itextpdf/kernel/pdf/canvas/PdfCanvas;",
            &[],
        ) {
            Ok(_) => (),
            Err(err) => {
                return Err(ForeignCallError::Runtime(err));
            },
        }
        Ok(self)
    }

    /// Applies an extended graphics state to the canvas; chainable.
    pub fn set_ext_g_state(&self, ext_g_state: &PdfExtGState<'a>, env: &mut JNIEnv<'a>) -> (r:
        Result<&Self, ForeignCallError>)
        ensures
            r matches Ok(me) ==> me == self,
            r matches Err(e) ==> e is Runtime,
    {
        match dispatch::call_method(
            env,
            self.as_obj(),
            "setExtGState",
            "(Lcom/itextpdf/kernel/pdf/extgstate/PdfExtGState;)Lcom/itextpdf/kernel/pdf/canvas/PdfCanvas;",
            &[dispatch::arg_obj(ext_g_state.as_obj())],
        ) {
            Ok(_) => (),
            Err(err) => {
                return Err(ForeignCallError::Runtime(err));
            },
        }
        Ok(self)
    }

    /// Draws image data under the given affine transformation; chainable.
    pub fn add_image_with_transformation_matrix(
        &self,
        image_data: &ImageData<'a>,
        a: Dec,
        b: Dec,
        c: Dec,
        d: Dec,
        e: Dec,
        f: Dec,
        inline: bool,
        env: &mut JNIEnv<'a>,
    ) -> (r: Result<&Self, ForeignCallError>)
        ensures
            r matches Ok(me) ==> me == self,
            r matches Err(e) ==> e is Runtime,
    {
        let av = match crate::marshal::float_value(env, &a) {
            Ok(v) => v,
            Err(err) => {
                return Err(err);
            },
        };
        let bv = match crate::marshal::float_value(env, &b) {
            Ok(v) => v,
            Err(err) => {
                return Err(err);
            },
        };
        let cv = match crate::marshal::float_value(env, &c) {
            Ok(v) => v,
            Err(err) => {
                return Err(err);
            },
        };
        let dv = match crate::marshal::float_value(env, &d) {
            Ok(v) => v,
            Err(err) => {
                return Err(err);
            },
        };
        let ev = match crate::marshal::float_value(env, &e) {
            Ok(v) => v,
            Err(err) => {
                return Err(err);
            },
        };
        let fv = match crate::marshal::float_value(env, &f) {
            Ok(v) => v,
            Err(err) => {
                return Err(err);
            },
        };
        match dispatch::call_method(
            env,
            self.as_obj(),
            "addImageWithTransformationMatrix",
            "(Lcom/itextpdf/io/image/ImageData;FFFFFFZ)Lcom/itextpdf/kernel/pdf/xobject/PdfXObject;",
            &[
                dispatch::arg_obj(image_data.as_obj()),
                dispatch::arg_of_value(&av),
                dispatch::arg_of_value(&bv),
                dispatch::arg_of_value(&cv),
                dispatch::arg_of_value(&dv),
                dispatch::arg_of_value(&ev),
                dispatch::arg_of_value(&fv),
                dispatch::arg_bool(inline),
            ],
        ) {
            Ok(_) => (),
            Err(err) => {
                return Err(ForeignCallError::Runtime(err));
            },
        }
        Ok(self)
    }

    /// Places a form object at the given position; chainable.
    pub fn add_x_object_at_form(
        &self,
        x_object: &PdfFormXObject<'a>,
        x: Dec,
        y: Dec,
        env: &mut JNIEnv<'a>,
    ) -> (r: Result<&Self, ForeignCallError>)
        ensures
            r matches Ok(me) ==> me == self,
            r matches Err(e) ==> e is Runtime,
    {
        let xv = match crate::marshal::float_value(env, &x) {
            Ok(v) => v,
            Err(err) => {
                return Err(err);
            },
        };
        let yv = match crate::marshal::float_value(env, &y) {
            Ok(v) => v,
            Err(err) => {
                return Err(err);
            },
        };
        match dispatch::call_method(
            env,
            self.as_obj(),
            "addXObjectAt",
            "(Lcom/itextpdf/kernel/pdf/xobject/PdfXObject;FF)Lcom/itextpdf/kernel/pdf/canvas/PdfCanvas;",
            &[
                dispatch::arg_obj(x_object.as_obj()),
                dispatch::arg_of_value(&xv),
                dispatch::arg_of_value(&yv),
            ],
        ) {
            Ok(_) => (),
            Err(err) => {
                return Err(ForeignCallError::Runtime(err));
            },
        }
        Ok(self)
    }
}

/// A foreign page of a document.
pub struct PdfPage<'a>(pub(crate) JObject<'a>);

impl<'a> Handle<'a> for PdfPage<'a> {
    closed spec fn captured(&self) -> JObject<'a> {
        self.0
    }

    fn as_obj(&self) -> (r: &JObject<'a>) {
        proof {
            assert(self.captured() == self.0);
        }
        &self.0
    }
}

impl<'a> PdfPage<'a> {
    /// Wraps a raw foreign reference without validating its runtime class.
    pub fn from_raw(obj: JObject<'a>) -> (r: Self)
        ensures
            r.captured() == obj,
    {
        PdfPage(obj)
    }

    /// Sets whether content placement ignores the page's rotation; chainable.
    pub fn set_ignore_page_rotation_for_content(
        &self,
        ignore_page_rotation_for_content: bool,
        env: &mut JNIEnv<'a>,
    ) -> (r: Result<&Self, ForeignCallError>)
        ensures
            r matches Ok(me) ==> me == self,
            r matches Err(e) ==> e is Runtime,
    {
        match dispatch::call_method(
            env,
            self.as_obj(),
            "setIgnorePageRotationForContent",
            "(Z)Lcom/itextpdf/kernel/pdf/PdfPage;",
            &[dispatch::arg_bool(ignore_page_rotation_for_content)],
        ) {
            Ok(_) => (),
            Err(err) => {
                return Err(ForeignCallError::Runtime(err));
            },
        }
        Ok(self)
    }

    /// Reads the page's extent as a rectangle.
    pub fn get_page_size(&self, env: &mut JNIEnv<'a>) -> (r: Result<Rectangle<'a>, ForeignCallError>)
        ensures
            r matches Err(e) ==> e is Runtime,
    {
        let value = match dispatch::call_method(
            env,
            self.as_obj(),
            "getPageSize",
            "()Lcom/itextpdf/kernel/geom/Rectangle;",
            &[],
        ) {
            Ok(v) => v,
            Err(err) => {
                return Err(ForeignCallError::Runtime(err));
            },
        };
        match dispatch::value_object(value) {
            Ok(v) => Ok(Rectangle(v)),
            Err(err) => Err(ForeignCallError::Runtime(err)),
        }
    }

    /// Reads the page's extent as a rectangle, with the page's rotation
    /// applied.
    pub fn get_page_size_with_rotation(&self, env: &mut JNIEnv<'a>) -> (r: Result<
        Rectangle<'a>,
        ForeignCallError,
    >)
        ensures
            r matches Err(e) ==> e is Runtime,
    {
        let value = match dispatch::call_method(
            env,
            self.as_obj(),
            "getPageSizeWithRotation",
            "()Lcom/itextpdf/kernel/geom/Rectangle;",
            &[],
        ) {
            Ok(v) => v,
            Err(err) => {
                return Err(ForeignCallError::Runtime(err));
            },
        };
        match dispatch::value_object(value) {
            Ok(v) => Ok(Rectangle(v)),
            Err(err) => Err(ForeignCallError::Runtime(err)),
        }
    }
}

/// A foreign rectangle: a position and an extent in point units.
pub struct Rectangle<'a>(pub(crate) JObject<'a>);

impl<'a> Handle<'a> for Rectangle<'a> {
    closed spec fn captured(&self) -> JObject<'a> {
        self.0
    }

    fn as_obj(&self) -> (r: &JObject<'a>) {
        proof {
            assert(self.captured() == self.0);
        }
        &self.0
    }
}

impl<'a> Rectangle<'a> {
    /// Wraps a raw foreign reference without validating its runtime class.
    pub fn from_raw(obj: JObject<'a>) -> (r: Self)
        ensures
            r.captured() == obj,
    {
        Rectangle(obj)
    }

    /// Allocates a rectangle of the given extent at the origin.
    pub fn new_w_h(width: Dec, height: Dec, env: &mut JNIEnv<'a>) -> (r: Result<
        Self,
        ForeignCallError,
    >)
        ensures
            r matches Err(e) ==> e is Runtime,
    {
        let wv = match crate::marshal::float_value(env, &width) {
            Ok(v) => v,
            Err(err) => {
                return Err(err);
            },
        };
        let hv = match crate::marshal::float_value(env, &height) {
            Ok(v) => v,
            Err(err) => {
                return Err(err);
            },
        };
        let obj = match dispatch::new_object(
            env,
            "com/itextpdf/kernel/geom/Rectangle",
            "(FF)V",
            &[dispatch::arg_of_value(&wv), dispatch::arg_of_value(&hv)],
        ) {
            Ok(v) => v,
            Err(err) => {
                return Err(ForeignCallError::Runtime(err));
            },
        };
        Ok(Rectangle(obj))
    }

    /// Allocates a rectangle of the given extent at the given position.
    pub fn new_x_y_w_h(x: Dec, y: Dec, width: Dec, height: Dec, env: &mut JNIEnv<'a>) -> (r: Result<
        Self,
        ForeignCallError,
    >)
        ensures
            r matches Err(e) ==> e is Runtime,
    {
        let xv = match crate::marshal::float_value(env, &x) {
            Ok(v) => v,
            Err(err) => {
                return Err(err);
            },
        };
        let yv = match crate::marshal::float_value(env, &y) {
            Ok(v) => v,
            Err(err) => {
                return Err(err);
            },
        };
        let wv = match crate::marshal::float_value(env, &width) {
            Ok(v) => v,
            Err(err) => {
                return Err(err);
            },
        };
        let hv = match crate::marshal::float_value(env, &height) {
            Ok(v) => v,
            Err(err) => {
                return Err(err);
            },
        };
        let obj = match dispatch::new_object(
            env,
            "com/itextpdf/kernel/geom/Rectangle",
            "(FFFF)V",
            &[
                dispatch::arg_of_value(&xv),
                dispatch::arg_of_value(&yv),
                dispatch::arg_of_value(&wv),
                dispatch::arg_of_value(&hv),
            ],
        ) {
            Ok(v) => v,
            Err(err) => {
                return Err(ForeignCallError::Runtime(err));
            },
        };
        Ok(Rectangle(obj))
    }

    /// Reads the rectangle's top edge as a decimal quantity, through the
    /// decimal text the foreign runtime prints for it; a reading the runtime
    /// prints in exponent notation is a number-format fault.
    pub fn get_top(&self, env: &mut JNIEnv<'a>) -> Result<Dec, ForeignCallError> {
        let value = match dispatch::call_method(env, self.as_obj(), "getTop", "()F", &[]) {
            Ok(v) => v,
            Err(err) => {
                return Err(ForeignCallError::Runtime(err));
            },
        };
        let text = match crate::marshal::float_text(env, &value) {
            Ok(v) => v,
            Err(err) => {
                return Err(err);
            },
        };
        Dec::parse_decimal_text(text.as_str())
    }

    /// Reads the rectangle's right edge as a decimal quantity, through the
    /// decimal text the foreign runtime prints for it; a reading the runtime
    /// prints in exponent notation is a number-format fault.
    pub fn get_right(&self, env: &mut JNIEnv<'a>) -> Result<Dec, ForeignCallError> {
        let value = match dispatch::call_method(env, self.as_obj(), "getRight", "()F", &[]) {
            Ok(v) => v,
            Err(err) => {
                return Err(ForeignCallError::Runtime(err));
            },
        };
        let text = match crate::marshal::float_text(env, &value) {
            Ok(v) => v,
            Err(err) => {
                return Err(err);
            },
        };
        Dec::parse_decimal_text(text.as_str())
    }

    /// Reads the rectangle's bottom edge as a decimal quantity, through the
    /// decimal text the foreign runtime prints for it; a reading the runtime
    /// prints in exponent notation is a number-format fault.
    pub fn get_bottom(&self, env: &mut JNIEnv<'a>) -> Result<Dec, ForeignCallError> {
        let value = match dispatch::call_method(env, self.as_obj(), "getBottom", "()F", &[]) {
            Ok(v) => v,
            Err(err) => {
                return Err(ForeignCallError::Runtime(err));
            },
        };
        let text = match crate::marshal::float_text(env, &value) {
            Ok(v) => v,
            Err(err) => {
                return Err(err);
            },
        };
        Dec::parse_decimal_text(text.as_str())
    }

    /// Reads the rectangle's left edge as a decimal quantity, through the
    /// decimal text the foreign runtime prints for it; a reading the runtime
    /// prints in exponent notation is a number-format fault.
    pub fn get_left(&self, env: &mut JNIEnv<'a>) -> Result<Dec, ForeignCallError> {
        let value = match dispatch::call_method(env, self.as_obj(), "getLeft", "()F", &[]) {
            Ok(v) => v,
            Err(err) => {
                return Err(ForeignCallError::Runtime(err));
            },
        };
        let text = match crate::marshal::float_text(env, &value) {
            Ok(v) => v,
            Err(err) => {
                return Err(err);
            },
        };
        Dec::parse_decimal_text(text.as_str())
    }
}

/// A foreign extended graphics state, holding settings such as fill opacity.
pub struct PdfExtGState<'a>(pub(crate) JObject<'a>);

impl<'a> Handle<'a> for PdfExtGState<'a> {
    closed spec fn captured(&self) -> JObject<'a> {
        self.0
    }

    fn as_obj(&self) -> (r: &JObject<'a>) {
        proof {
            assert(self.captured() == self.0);
        }
        &self.0
    }
}

impl<'a> PdfExtGState<'a> {
    /// Wraps a raw foreign reference without validating its runtime class.
    pub fn from_raw(obj: JObject<'a>) -> (r: Self)
        ensures
            r.captured() == obj,
    {
        PdfExtGState(obj)
    }

    /// Allocates an empty extended graphics state.
    pub fn new(env: &mut JNIEnv<'a>) -> (r: Result<PdfExtGState<'a>, ForeignCallError>)
        ensures
            r matches Err(e) ==> e is Runtime,
    {
        let obj = match dispatch::new_object(
            env,
            "com/itextpdf/kernel/pdf/extgstate/PdfExtGState",
            "()V",
            &[],
        ) {
            Ok(v) => v,
            Err(err) => {
                return Err(ForeignCallError::Runtime(err));
            },
        };
        Ok(PdfExtGState(obj))
    }

    /// Sets the state's fill opacity, a quantity between zero and one;
    /// chainable.
    pub fn set_fill_opacity(&self, env: &mut JNIEnv<'a>, filling_alpha_constant: Dec) -> (r:
        Result<&Self, ForeignCallError>)
        ensures
            r matches Ok(me) ==> me == self,
            r matches Err(e) ==> e is Runtime,
    {
        let av = match crate::marshal::float_value(env, &filling_alpha_constant) {
            Ok(v) => v,
            Err(err) => {
                return Err(err);
            },
        };
        match dispatch::call_method(
            env,
            self.as_obj(),
            "setFillOpacity",
            "(F)Lcom/itextpdf/kernel/pdf/extgstate/PdfExtGState;",
            &[dispatch::arg_of_value(&av)],
        ) {
            Ok(_) => (),
            Err(err) => {
                return Err(ForeignCallError::Runtime(err));
            },
        }
        Ok(self)
    }
}

/// A foreign reusable form object, such as a rendered barcode.
pub struct PdfFormXObject<'a>(pub(crate) JObject<'a>);

impl<'a> Handle<'a> for PdfFormXObject<'a> {
    closed spec fn captured(&self) -> JObject<'a> {
        self.0
    }

    fn as_obj(&self) -> (r: &JObject<'a>) {
        proof {
            assert(self.captured() == self.0);
        }
        &self.0
    }
}

impl<'a> PdfFormXObject<'a> {
    /// Wraps a raw foreign reference without validating its runtime class.
    pub fn from_raw(obj: JObject<'a>) -> (r: Self)
        ensures
            r.captured() == obj,
    {
        PdfFormXObject(obj)
    }
}

} // verus!
