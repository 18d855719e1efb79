//! Handles and constant enumerations for the foreign library's input/output
//! layer: raw image data, font programs, standard fonts and text encodings.

use vstd::prelude::*;
use jni::JNIEnv;
use jni::objects::JObject;
use crate::dec::Dec;
use crate::dispatch;
use crate::error::ForeignCallError;
use crate::handle::Handle;
use crate::marshal;

verus! {

/// Raw image bytes decoded by the foreign library's image factory.
pub struct ImageData<'a>(pub(crate) JObject<'a>);

impl<'a> Handle<'a> for ImageData<'a> {
    closed spec fn captured(&self) -> JObject<'a> {
        self.0
    }

    fn as_obj(&self) -> (r: &JObject<'a>) {
        proof {
            assert(self.captured() == self.0);
        }
        &self.0
    }
}

impl<'a> ImageData<'a> {
    /// Wraps a raw foreign reference without validating its runtime class.
    pub fn from_raw(obj: JObject<'a>) -> (r: Self)
        ensures
            r.captured() == obj,
    {
        ImageData(obj)
    }

    /// Decodes image data from a native buffer, copied element by element
    /// into the foreign signed-byte representation.
    pub fn new(env: &mut JNIEnv<'a>, bytes: &[u8]) -> (r: Result<Self, ForeignCallError>)
        requires
            crate::fits_foreign_len(bytes@.len()),
        ensures
            r matches Err(e) ==> e is Runtime,
    {
        let signed = marshal::marshal_bytes(bytes);
        let array = match dispatch::new_byte_array(env, bytes.len() as i32) {
            Ok(v) => v,
            Err(err) => {
                return Err(ForeignCallError::Runtime(err));
            },
        };
        match dispatch::set_byte_array_region(env, &array, 0, signed.as_slice()) {
            Ok(_) => (),
            Err(err) => {
                return Err(ForeignCallError::Runtime(err));
            },
        }
        let value = match dispatch::call_static_method(
            env,
            "com/itextpdf/io/image/ImageDataFactory",
            "create",
            "([B)Lcom/itextpdf/io/image/ImageData;",
            &[dispatch::arg_obj(&array)],
        ) {
            Ok(v) => v,
            Err(err) => {
                return Err(ForeignCallError::Runtime(err));
            },
        };
        let obj = match dispatch::value_object(value) {
            Ok(v) => v,
            Err(err) => {
                return Err(ForeignCallError::Runtime(err));
            },
        };
        Ok(ImageData(obj))
    }

    /// Reads the image's width as a decimal quantity, through the decimal
    /// text the foreign runtime prints for it; a reading the runtime prints
    /// in exponent notation is a number-format fault.
    pub fn get_width(&self, env: &mut JNIEnv<'a>) -> Result<Dec, ForeignCallError> {
        let value = match dispatch::call_method(env, self.as_obj(), "getWidth", "()F", &[]) {
            Ok(v) => v,
            Err(err) => {
                return Err(ForeignCallError::Runtime(err));
            },
        };
        let text = match marshal::float_text(env, &value) {
            Ok(v) => v,
            Err(err) => {
                return Err(err);
            },
        };
        Dec::parse_decimal_text(text.as_str())
    }

    /// Reads the image's height as a decimal quantity, through the decimal
    /// text the foreign runtime prints for it; a reading the runtime prints
    /// in exponent notation is a number-format fault.
    pub fn get_height(&self, env: &mut JNIEnv<'a>) -> Result<Dec, ForeignCallError> {
        let value = match dispatch::call_method(env, self.as_obj(), "getHeight", "()F", &[]) {
            Ok(v) => v,
            Err(err) => {
                return Err(ForeignCallError::Runtime(err));
            },
        };
        let text = match marshal::float_text(env, &value) {
            Ok(v) => v,
            Err(err) => {
                return Err(err);
            },
        };
        Dec::parse_decimal_text(text.as_str())
    }
}

/// A parsed font program, produced by the foreign font-program factory.
pub struct FontProgram<'a>(pub(crate) JObject<'a>);

impl<'a> Handle<'a> for FontProgram<'a> {
    closed spec fn captured(&self) -> JObject<'a> {
        self.0
    }

    fn as_obj(&self) -> (r: &JObject<'a>) {
        proof {
            assert(self.captured() == self.0);
        }
        &self.0
    }
}

impl<'a> FontProgram<'a> {
    /// Wraps a raw foreign reference without validating its runtime class.
    pub fn from_raw(obj: JObject<'a>) -> (r: Self)
        ensures
            r.captured() == obj,
    {
        FontProgram(obj)
    }
}

/// The foreign font-program factory; offers only static operations.
pub struct FontProgramFactory<'a>(pub(crate) JObject<'a>);

impl<'a> Handle<'a> for FontProgramFactory<'a> {
    closed spec fn captured(&self) -> JObject<'a> {
        self.0
    }

    fn as_obj(&self) -> (r: &JObject<'a>) {
        proof {
            assert(self.captured() == self.0);
        }
        &self.0
    }
}

impl<'a> FontProgramFactory<'a> {
    /// Parses a font program from the bytes of a TrueType font, copied
    /// element by element into the foreign signed-byte representation.
    pub fn new_from_ttf(bytes: &[u8], env: &mut JNIEnv<'a>) -> (r: Result<
        FontProgram<'a>,
        ForeignCallError,
    >)
        requires
            crate::fits_foreign_len(bytes@.len()),
        ensures
            r matches Err(e) ==> e is Runtime,
    {
        let signed = marshal::marshal_bytes(bytes);
        let array = match dispatch::new_byte_array(env, bytes.len() as i32) {
            Ok(v) => v,
            Err(err) => {
                return Err(ForeignCallError::Runtime(err));
            },
        };
        match dispatch::set_byte_array_region(env, &array, 0, signed.as_slice()) {
            Ok(_) => (),
            Err(err) => {
                return Err(ForeignCallError::Runtime(err));
            },
        }
        let value = match dispatch::call_static_method(
            env,
            "com/itextpdf/io/font/FontProgramFactory",
            "createFont",
            "([B)Lcom/itextpdf/io/font/FontProgram;",
            &[dispatch::arg_obj(&array)],
        ) {
            Ok(v) => v,
            Err(err) => {
                return Err(ForeignCallError::Runtime(err));
            },
        };
        let obj = match dispatch::value_object(value) {
            Ok(v) => v,
            Err(err) => {
                return Err(ForeignCallError::Runtime(err));
            },
        };
        Ok(FontProgram(obj))
    }
}

/// The closed enumeration of the foreign library's built-in fonts. Each
/// variant maps deterministically to a constant of the foreign library's
/// standard-font descriptor class.
#[derive(Debug, Clone)]
pub enum StandardFont {
    Courier,
    CourierBold,
    CourierBoldoblique,
    CourierOblique,
    Helvetica,
    HelveticaBold,
    HelveticaBoldoblique,
    HelveticaOblique,
    Symbol,
    TimesBold,
    TimesBolditalic,
    TimesItalic,
    TimesRoman,
    Zapfdingbats,
}

impl StandardFont {
    /// The variant's name, the input of the constant-name transformation.
    pub open spec fn spec_name(&self) -> Seq<char> {
        match self {
            StandardFont::Courier => "Courier"@,
            StandardFont::CourierBold => "CourierBold"@,
            StandardFont::CourierBoldoblique => "CourierBoldoblique"@,
            StandardFont::CourierOblique => "CourierOblique"@,
            StandardFont::Helvetica => "Helvetica"@,
            StandardFont::HelveticaBold => "HelveticaBold"@,
            StandardFont::HelveticaBoldoblique => "HelveticaBoldoblique"@,
            StandardFont::HelveticaOblique => "HelveticaOblique"@,
            StandardFont::Symbol => "Symbol"@,
            StandardFont::TimesBold => "TimesBold"@,
            StandardFont::TimesBolditalic => "TimesBolditalic"@,
            StandardFont::TimesItalic => "TimesItalic"@,
            StandardFont::TimesRoman => "TimesRoman"@,
            StandardFont::Zapfdingbats => "Zapfdingbats"@,
        }
    }

    /// The variant's name as a native string.
    pub fn variant_name(&self) -> (r: &'static str)
        ensures
            r@ == self.spec_name(),
    {
        match self {
            StandardFont::Courier => "Courier",
            StandardFont::CourierBold => "CourierBold",
            StandardFont::CourierBoldoblique => "CourierBoldoblique",
            StandardFont::CourierOblique => "CourierOblique",
            StandardFont::Helvetica => "Helvetica",
            StandardFont::HelveticaBold => "HelveticaBold",
            StandardFont::HelveticaBoldoblique => "HelveticaBoldoblique",
            StandardFont::HelveticaOblique => "HelveticaOblique",
            StandardFont::Symbol => "Symbol",
            StandardFont::TimesBold => "TimesBold",
            StandardFont::TimesBolditalic => "TimesBolditalic",
            StandardFont::TimesItalic => "TimesItalic",
            StandardFont::TimesRoman => "TimesRoman",
            StandardFont::Zapfdingbats => "Zapfdingbats",
        }
    }

    /// The name of the foreign constant this variant resolves to: the
    /// variant's name under the constant-case transformation.
    pub fn constant_field_name(&self) -> (r: String)
        ensures
            r@ == dispatch::constant_case_of(self.spec_name()),
    {
        dispatch::to_constant_case(self.variant_name())
    }

    /// Resolves the variant to its foreign constant by a field lookup against
    /// the foreign standard-font descriptor class.
    pub(crate) fn get_java_value<'e>(&self, env: &mut JNIEnv<'e>) -> (r: Result<
        JObject<'e>,
        ForeignCallError,
    >)
        ensures
            r matches Err(e) ==> e is Runtime,
    {
        let field_name = self.constant_field_name();
        let value = match dispatch::get_static_field(
            env,
            "com/itextpdf/io/font/constants/StandardFonts",
            field_name.as_str(),
            "Ljava/lang/String;",
        ) {
            Ok(v) => v,
            Err(err) => {
                return Err(ForeignCallError::Runtime(err));
            },
        };
        match dispatch::value_object(value) {
            Ok(v) => Ok(v),
            Err(err) => Err(ForeignCallError::Runtime(err)),
        }
    }
}

/// The closed enumeration of the foreign library's text encodings. Each
/// variant maps deterministically to a constant of the foreign library's
/// encodings class.
#[derive(Debug, Clone)]
pub enum PdfEncodings {
    Cp1250,
    Cp1252,
    Cp1253,
    Cp1257,
    IdentityH,
    IdentityV,
    Macroman,
    PdfDocEncoding,
    Symbol,
    UnicodeBig,
    UnicodeBigUnmarked,
    Utf8,
    Winansi,
    Zapfdingbats,
}

impl PdfEncodings {
    /// The variant's name, the input of the constant-name transformation.
    pub open spec fn spec_name(&self) -> Seq<char> {
        match self {
            PdfEncodings::Cp1250 => "Cp1250"@,
            PdfEncodings::Cp1252 => "Cp1252"@,
            PdfEncodings::Cp1253 => "Cp1253"@,
            PdfEncodings::Cp1257 => "Cp1257"@,
            PdfEncodings::IdentityH => "IdentityH"@,
            PdfEncodings::IdentityV => "IdentityV"@,
            PdfEncodings::Macroman => "Macroman"@,
            PdfEncodings::PdfDocEncoding => "PdfDocEncoding"@,
            PdfEncodings::Symbol => "Symbol"@,
            PdfEncodings::UnicodeBig => "UnicodeBig"@,
            PdfEncodings::UnicodeBigUnmarked => "UnicodeBigUnmarked"@,
            PdfEncodings::Utf8 => "Utf8"@,
            PdfEncodings::Winansi => "Winansi"@,
            PdfEncodings::Zapfdingbats => "Zapfdingbats"@,
        }
    }

    /// The variant's name as a native string.
    pub fn variant_name(&self) -> (r: &'static str)
        ensures
            r@ == self.spec_name(),
    {
        match self {
            PdfEncodings::Cp1250 => "Cp1250",
            PdfEncodings::Cp1252 => "Cp1252",
            PdfEncodings::Cp1253 => "Cp1253",
            PdfEncodings::Cp1257 => "Cp1257",
            PdfEncodings::IdentityH => "IdentityH",
            PdfEncodings::IdentityV => "IdentityV",
            PdfEncodings::Macroman => "Macroman",
            PdfEncodings::PdfDocEncoding => "PdfDocEncoding",
            PdfEncodings::Symbol => "Symbol",
            PdfEncodings::UnicodeBig => "UnicodeBig",
            PdfEncodings::UnicodeBigUnmarked => "UnicodeBigUnmarked",
            PdfEncodings::Utf8 => "Utf8",
            PdfEncodings::Winansi => "Winansi",
            PdfEncodings::Zapfdingbats => "Zapfdingbats",
        }
    }

    /// The name of the foreign constant this variant resolves to. The
    /// digit-bearing variants carry their constant's name verbatim: the case
    /// transformation would split before the digit run and miss the foreign
    /// constant. Every other variant goes through the transformation.
    pub open spec fn spec_constant_name(&self) -> Seq<char> {
        match self {
            PdfEncodings::Cp1250 => "CP1250"@,
            PdfEncodings::Cp1252 => "CP1252"@,
            PdfEncodings::Cp1253 => "CP1253"@,
            PdfEncodings::Cp1257 => "CP1257"@,
            PdfEncodings::Utf8 => "UTF8"@,
            _ => dispatch::constant_case_of(self.spec_name()),
        }
    }

    /// The name of the foreign constant this variant resolves to.
    pub fn constant_field_name(&self) -> (r: String)
        ensures
            r@ == self.spec_constant_name(),
    {
        match self {
            PdfEncodings::Cp1250 => "CP1250".to_owned(),
            PdfEncodings::Cp1252 => "CP1252".to_owned(),
            PdfEncodings::Cp1253 => "CP1253".to_owned(),
            PdfEncodings::Cp1257 => "CP1257".to_owned(),
            PdfEncodings::Utf8 => "UTF8".to_owned(),
            _ => dispatch::to_constant_case(self.variant_name()),
        }
    }

    /// Resolves the variant to its foreign constant by a field lookup against
    /// the foreign encodings class.
    pub(crate) fn get_java_value<'e>(&self, env: &mut JNIEnv<'e>) -> (r: Result<
        JObject<'e>,
        ForeignCallError,
    >)
        ensures
            r matches Err(e) ==> e is Runtime,
    {
        let field_name = self.constant_field_name();
        let value = match dispatch::get_static_field(
            env,
            "com/itextpdf/io/font/PdfEncodings",
            field_name.as_str(),
            "Ljava/lang/String;",
        ) {
            Ok(v) => v,
            Err(err) => {
                return Err(ForeignCallError::Runtime(err));
            },
        };
        match dispatch::value_object(value) {
            Ok(v) => Ok(v),
            Err(err) => Err(ForeignCallError::Runtime(err)),
        }
    }
}

} // verus!
