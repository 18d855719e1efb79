//! Handle for the foreign library's barcode generator.

use vstd::prelude::*;
use jni::JNIEnv;
use jni::objects::JObject;
use crate::dispatch;
use crate::error::ForeignCallError;
use crate::handle::Handle;
use crate::kernel::{Color, PdfDocument, PdfFormXObject};

verus! {

/// The closed enumeration of barcode symbologies the generator draws. Each
/// variant maps to a fixed integer constant of the foreign barcode class.
pub enum BarcodeType {
    Ean13,
    Ean8,
    Supp2,
    Supp5,
    Upca,
    Upce,
}

impl BarcodeType {
    /// The name of the foreign constant this variant resolves to.
    pub open spec fn spec_field_name(&self) -> Seq<char> {
        match self {
            BarcodeType::Ean13 => "EAN13"@,
            BarcodeType::Ean8 => "EAN8"@,
            BarcodeType::Supp2 => "SUPP2"@,
            BarcodeType::Supp5 => "SUPP5"@,
            BarcodeType::Upca => "UPCA"@,
            BarcodeType::Upce => "UPCE"@,
        }
    }

    /// The name of the foreign constant this variant resolves to, as a
    /// native string.
    pub fn field_name(&self) -> (r: &'static str)
        ensures
            r@ == self.spec_field_name(),
    {
        match self {
            BarcodeType::Ean13 => "EAN13",
            BarcodeType::Ean8 => "EAN8",
            BarcodeType::Supp2 => "SUPP2",
            BarcodeType::Supp5 => "SUPP5",
            BarcodeType::Upca => "UPCA",
            BarcodeType::Upce => "UPCE",
        }
    }
}

/// A foreign barcode generator bound to one document.
pub struct BarcodeEAN<'a>(pub(crate) JObject<'a>);

impl<'a> Handle<'a> for BarcodeEAN<'a> {
    closed spec fn captured(&self) -> JObject<'a> {
        self.0
    }

    fn as_obj(&self) -> (r: &JObject<'a>) {
        proof {
            assert(self.captured() == self.0);
        }
        &self.0
    }
}

impl<'a> BarcodeEAN<'a> {
    /// Wraps a raw foreign reference without validating its runtime class.
    pub fn from_raw(obj: JObject<'a>) -> (r: Self)
        ensures
            r.captured() == obj,
    {
        BarcodeEAN(obj)
    }

    /// Resolves a symbology variant to its foreign integer constant by a
    /// static field lookup.
    fn barcode_type_value(
        barcode_type: &BarcodeType,
        env: &mut JNIEnv<'a>,
    ) -> (r: Result<i32, ForeignCallError>)
        ensures
            r matches Err(e) ==> e is Runtime,
    {
        let value = match dispatch::get_static_field(
            env,
            "com/itextpdf/barcodes/BarcodeEAN",
            barcode_type.field_name(),
            "I",
        ) {
            Ok(v) => v,
            Err(err) => {
                return Err(ForeignCallError::Runtime(err));
            },
        };
        match dispatch::value_int(value) {
            Ok(v) => Ok(v),
            Err(err) => Err(ForeignCallError::Runtime(err)),
        }
    }

    /// Allocates a barcode generator for the given document.
    pub fn new(pdf_document: &PdfDocument<'a>, env: &mut JNIEnv<'a>) -> (r: Result<
        Self,
        ForeignCallError,
    >)
        ensures
            r matches Err(e) ==> e is Runtime,
    {
        let obj = match dispatch::new_object(
            env,
            "com/itextpdf/barcodes/BarcodeEAN",
            "(Lcom/itextpdf/kernel/pdf/PdfDocument;)V",
            &[dispatch::arg_obj(pdf_document.as_obj())],
        ) {
            Ok(v) => v,
            Err(err) => {
                return Err(ForeignCallError::Runtime(err));
            },
        };
        Ok(BarcodeEAN(obj))
    }

    /// Selects the barcode's symbology, resolving it to the foreign integer
    /// constant first; chainable.
    pub fn set_code_type(&self, barcode_type: &BarcodeType, env: &mut JNIEnv<'a>) -> (r: Result<
        &Self,
        ForeignCallError,
    >)
        ensures
            r matches Ok(me) ==> me == self,
            r matches Err(e) ==> e is Runtime,
    {
        let ty = match Self::barcode_type_value(barcode_type, env) {
            Ok(v) => v,
            Err(err) => {
                return Err(err);
            },
        };
        match dispatch::call_method(
            env,
            self.as_obj(),
            "setCodeType",
            "(I)V",
            &[dispatch::arg_int(ty)],
        ) {
            Ok(_) => (),
            Err(err) => {
                return Err(ForeignCallError::Runtime(err));
            },
        }
        Ok(self)
    }

    /// Sets the digits the barcode encodes, passed as a freshly allocated
    /// foreign string; chainable.
    pub fn set_code(&self, code: &str, env: &mut JNIEnv<'a>) -> (r: Result<
        &Self,
        ForeignCallError,
    >)
        ensures
            r matches Ok(me) ==> me == self,
            r matches Err(e) ==> e is Runtime,
    {
        let code_obj = match dispatch::new_string(env, code) {
            Ok(v) => v,
            Err(err) => {
                return Err(ForeignCallError::Runtime(err));
            },
        };
        match dispatch::call_method(
            env,
            self.as_obj(),
            "setCode",
            "(Ljava/lang/String;)V",
            &[dispatch::arg_obj(&code_obj)],
        ) {
            Ok(_) => (),
            Err(err) => {
                return Err(ForeignCallError::Runtime(err));
            },
        }
        Ok(self)
    }

    /// Renders the barcode into a reusable form object with the given bar
    /// and text colors.
    pub fn create_form_x_object(
        &self,
        color_bar: &Color<'a>,
        color_text: &Color<'a>,
        pdf_document: &PdfDocument<'a>,
        env: &mut JNIEnv<'a>,
    ) -> (r: Result<PdfFormXObject<'a>, ForeignCallError>)
        ensures
            r matches Err(e) ==> e is Runtime,
    {
        let value = match dispatch::call_method(
            env,
            self.as_obj(),
            "createFormXObject",
            "(Lcom/itextpdf/kernel/colors/Color;Lcom/itextpdf/kernel/colors/Color;Lcom/itextpdf/kernel/pdf/PdfDocument;)Lcom/itextpdf/kernel/pdf/xobject/PdfFormXObject;",
            &[
                dispatch::arg_obj(color_bar.as_obj()),
                dispatch::arg_obj(color_text.as_obj()),
                dispatch::arg_obj(pdf_document.as_obj()),
            ],
        ) {
            Ok(v) => v,
            Err(err) => {
                return Err(ForeignCallError::Runtime(err));
            },
        };
        match dispatch::value_object(value) {
            Ok(v) => Ok(PdfFormXObject::from_raw(v)),
            Err(err) => Err(ForeignCallError::Runtime(err)),
        }
    }
}

} // verus!
