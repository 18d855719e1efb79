//! The layout layer: capability traits composing shared method sets across
//! the wrapper catalog, the layout enumerations, and the concrete element
//! types.
//!
//! The foreign library's multi-level interface hierarchy is flattened here
//! into independent capability traits; a concrete type conforms to exactly
//! the traits its foreign counterpart implements, by an explicit empty
//! declaration. Every setter returns a reference to the receiver, so calls
//! chain, and a chain short-circuits at the first fault; intermediate foreign
//! side effects are not rolled back.

use vstd::prelude::*;
use jni::JNIEnv;
use jni::objects::{JObject, JValueGen};
use crate::dec::Dec;
use crate::dispatch;
use crate::error::ForeignCallError;
use crate::handle::Handle;
use crate::io::ImageData;
use crate::kernel::{Color, ColorConstant, PageSize, PdfCanvas, PdfDocument, PdfFont, PdfPage,
    Rectangle, SolidLine};
use crate::marshal;

verus! {

/// The horizontal placement of an element. Each variant maps
/// deterministically to a constant of the foreign alignment class.
#[derive(Clone)]
pub enum HorizontalAlignment {
    Left,
    Center,
    Right,
}

impl HorizontalAlignment {
    /// The variant's name, the input of the constant-name transformation.
    pub open spec fn spec_name(&self) -> Seq<char> {
        match self {
            HorizontalAlignment::Left => "Left"@,
            HorizontalAlignment::Center => "Center"@,
            HorizontalAlignment::Right => "Right"@,
        }
    }

    /// The variant's name as a native string.
    pub fn variant_name(&self) -> (r: &'static str)
        ensures
            r@ == self.spec_name(),
    {
        match self {
            HorizontalAlignment::Left => "Left",
            HorizontalAlignment::Center => "Center",
            HorizontalAlignment::Right => "Right",
        }
    }

    /// The name of the foreign constant this variant resolves to: the
    /// variant's name under the constant-case transformation.
    pub fn constant_field_name(&self) -> (r: String)
        ensures
            r@ == dispatch::constant_case_of(self.spec_name()),
    {
        dispatch::to_constant_case(self.variant_name())
    }

    /// Resolves the variant to its foreign constant by a field lookup.
    pub(crate) fn get_java_value<'e>(&self, env: &mut JNIEnv<'e>) -> (r: Result<
        JObject<'e>,
        ForeignCallError,
    >)
        ensures
            r matches Err(e) ==> e is Runtime,
    {
        let field_name = self.constant_field_name();
        let value = match dispatch::get_static_field(
            env,
            "com/itextpdf/layout/property/HorizontalAlignment",
            field_name.as_str(),
            "Lcom/itextpdf/layout/property/HorizontalAlignment;",
        ) {
            Ok(v) => v,
            Err(err) => {
                return Err(ForeignCallError::Runtime(err));
            },
        };
        match dispatch::value_object(value) {
            Ok(v) => Ok(v),
            Err(err) => Err(ForeignCallError::Runtime(err)),
        }
    }
}

/// The vertical placement of an element. Each variant maps deterministically
/// to a constant of the foreign alignment class.
#[derive(Clone)]
pub enum VerticalAlignment {
    Bottom,
    Middle,
    Top,
}

impl VerticalAlignment {
    /// The variant's name, the input of the constant-name transformation.
    pub open spec fn spec_name(&self) -> Seq<char> {
        match self {
            VerticalAlignment::Bottom => "Bottom"@,
            VerticalAlignment::Middle => "Middle"@,
            VerticalAlignment::Top => "Top"@,
        }
    }

    /// The variant's name as a native string.
    pub fn variant_name(&self) -> (r: &'static str)
        ensures
            r@ == self.spec_name(),
    {
        match self {
            VerticalAlignment::Bottom => "Bottom",
            VerticalAlignment::Middle => "Middle",
            VerticalAlignment::Top => "Top",
        }
    }

    /// The name of the foreign constant this variant resolves to: the
    /// variant's name under the constant-case transformation.
    pub fn constant_field_name(&self) -> (r: String)
        ensures
            r@ == dispatch::constant_case_of(self.spec_name()),
    {
        dispatch::to_constant_case(self.variant_name())
    }

    /// Resolves the variant to its foreign constant by a field lookup.
    pub(crate) fn get_java_value<'e>(&self, env: &mut JNIEnv<'e>) -> (r: Result<
        JObject<'e>,
        ForeignCallError,
    >)
        ensures
            r matches Err(e) ==> e is Runtime,
    {
        let field_name = self.constant_field_name();
        let value = match dispatch::get_static_field(
            env,
            "com/itextpdf/layout/property/VerticalAlignment",
            field_name.as_str(),
            "Lcom/itextpdf/layout/property/VerticalAlignment;",
        ) {
            Ok(v) => v,
            Err(err) => {
                return Err(ForeignCallError::Runtime(err));
            },
        };
        match dispatch::value_object(value) {
            Ok(v) => Ok(v),
            Err(err) => Err(ForeignCallError::Runtime(err)),
        }
    }
}

/// The placement of text inside an element. Each variant maps to a fixed
/// constant name of the foreign alignment class.
#[derive(Clone)]
pub enum TextAlignment {
    Left,
    Center,
    Right,
    Justified,
    JustifiedAll,
}

impl TextAlignment {
    /// The name of the foreign constant this variant resolves to.
    pub open spec fn spec_field_name(&self) -> Seq<char> {
        match self {
            TextAlignment::Left => "LEFT"@,
            TextAlignment::Center => "CENTER"@,
            TextAlignment::Right => "RIGHT"@,
            TextAlignment::Justified => "JUSTIFIED"@,
            TextAlignment::JustifiedAll => "JUSTIFIED_ALL"@,
        }
    }

    /// The name of the foreign constant this variant resolves to, as a
    /// native string.
    pub fn field_name(&self) -> (r: &'static str)
        ensures
            r@ == self.spec_field_name(),
    {
        match self {
            TextAlignment::Left => "LEFT",
            TextAlignment::Center => "CENTER",
            TextAlignment::Right => "RIGHT",
            TextAlignment::Justified => "JUSTIFIED",
            TextAlignment::JustifiedAll => "JUSTIFIED_ALL",
        }
    }

    /// Resolves the variant to its foreign constant by a field lookup.
    pub(crate) fn get_java_value<'e>(&self, env: &mut JNIEnv<'e>) -> (r: Result<
        JObject<'e>,
        ForeignCallError,
    >)
        ensures
            r matches Err(e) ==> e is Runtime,
    {
        let value = match dispatch::get_static_field(
            env,
            "com/itextpdf/layout/property/TextAlignment",
            self.field_name(),
            "Lcom/itextpdf/layout/property/TextAlignment;",
        ) {
            Ok(v) => v,
            Err(err) => {
                return Err(ForeignCallError::Runtime(err));
            },
        };
        match dispatch::value_object(value) {
            Ok(v) => Ok(v),
            Err(err) => Err(ForeignCallError::Runtime(err)),
        }
    }
}

/// An element's border: a solid stroke of a given width and color, or the
/// no-border sentinel, which the foreign library reads as the null
/// reference. Setting the border again replaces the earlier setting; the
/// last setter wins.
#[derive(Clone)]
pub enum Border {
    Solid { width: Dec, color: ColorConstant },
    NoBorder,
}

impl Border {
    /// Builds the foreign value of this border: a freshly constructed solid
    /// border, or the null reference for the no-border sentinel, which makes
    /// no foreign call and always succeeds.
    pub(crate) fn get_java_constant<'e>(&self, env: &mut JNIEnv<'e>) -> (r: Result<
        JObject<'e>,
        ForeignCallError,
    >)
        ensures
            self is NoBorder ==> r is Ok,
            r matches Err(e) ==> e is Runtime,
    {
        match self {
            Border::Solid { width, color } => {
                let color_obj = match color.get_java_value(env) {
                    Ok(v) => v,
                    Err(err) => {
                        return Err(err);
                    },
                };
                let wv = match marshal::float_value(env, width) {
                    Ok(v) => v,
                    Err(err) => {
                        return Err(err);
                    },
                };
                match dispatch::new_object(
                    env,
                    "com/itextpdf/layout/borders/SolidBorder",
                    "(Lcom/itextpdf/kernel/colors/Color;F)V",
                    &[dispatch::arg_obj(&color_obj), dispatch::arg_of_value(&wv)],
                ) {
                    Ok(obj) => Ok(obj),
                    Err(err) => Err(ForeignCallError::Runtime(err)),
                }
            },
            Border::NoBorder => Ok(dispatch::null_obj()),
        }
    }
}

/// Invokes one foreign instance method and discards its result, wrapping
/// any fault as the library's foreign-call error.
fn invoke_on<'a>(
    env: &mut JNIEnv<'a>,
    obj: &JObject<'a>,
    name: &str,
    sig: &str,
    args: &[JValueGen<&JObject<'a>>],
) -> (r: Result<(), ForeignCallError>)
    ensures
        r matches Err(e) ==> e is Runtime,
{
    match dispatch::call_method(env, obj, name, sig, args) {
        Ok(_) => Ok(()),
        Err(err) => Err(ForeignCallError::Runtime(err)),
    }
}

/// The property capability: chainable setters for position, borders,
/// alignment, emphasis, font size, color and font, shared by every element
/// type that declares conformance. Every setter performs exactly one foreign
/// method invocation, after at most one further invocation to resolve an
/// enumeration constant; on success it returns the receiver, so calls chain,
/// and on a fault the chain short-circuits with the fault unchanged.
pub trait ElementPropertyContainer<'a>: Handle<'a> {
    /// Places the element at a fixed position with the given width;
    /// chainable.
    fn set_fixed_position(&self, left: Dec, bottom: Dec, width: Dec, env: &mut JNIEnv<'a>) -> (r:
        Result<&Self, ForeignCallError>)
        ensures
            r matches Ok(me) ==> me == self,
            r matches Err(e) ==> e is Runtime,
    {
        let lv = match marshal::float_value(env, &left) {
            Ok(v) => v,
            Err(err) => {
                return Err(err);
            },
        };
        let bv = match marshal::float_value(env, &bottom) {
            Ok(v) => v,
            Err(err) => {
                return Err(err);
            },
        };
        let wv = match marshal::float_value(env, &width) {
            Ok(v) => v,
            Err(err) => {
                return Err(err);
            },
        };
        match invoke_on(
            env,
            self.as_obj(),
            "setFixedPosition",
            "(FFF)Lcom/itextpdf/layout/IPropertyContainer;",
            &[
                dispatch::arg_of_value(&lv),
                dispatch::arg_of_value(&bv),
                dispatch::arg_of_value(&wv),
            ],
        ) {
            Ok(_) => (),
            Err(err) => {
                return Err(err);
            },
        }
        Ok(self)
    }

    /// Sets all four borders at once; the last border setter wins; chainable.
    fn set_border(&self, border: Border, env: &mut JNIEnv<'a>) -> (r: Result<
        &Self,
        ForeignCallError,
    >)
        ensures
            r matches Ok(me) ==> me == self,
            r matches Err(e) ==> e is Runtime,
    {
        let border_obj = match border.get_java_constant(env) {
            Ok(v) => v,
            Err(err) => {
                return Err(err);
            },
        };
        match invoke_on(
            env,
            self.as_obj(),
            "setBorder",
            "(Lcom/itextpdf/layout/borders/Border;)Lcom/itextpdf/layout/IPropertyContainer;",
            &[dispatch::arg_obj(&border_obj)],
        ) {
            Ok(_) => (),
            Err(err) => {
                return Err(err);
            },
        }
        Ok(self)
    }

    /// Sets the bottom border; chainable.
    fn set_border_bottom(&self, border: Border, env: &mut JNIEnv<'a>) -> (r: Result<
        &Self,
        ForeignCallError,
    >)
        ensures
            r matches Ok(me) ==> me == self,
            r matches Err(e) ==> e is Runtime,
    {
        let border_obj = match border.get_java_constant(env) {
            Ok(v) => v,
            Err(err) => {
                return Err(err);
            },
        };
        match invoke_on(
            env,
            self.as_obj(),
            "setBorderBottom",
            "(Lcom/itextpdf/layout/borders/Border;)Lcom/itextpdf/layout/IPropertyContainer;",
            &[dispatch::arg_obj(&border_obj)],
        ) {
            Ok(_) => (),
            Err(err) => {
                return Err(err);
            },
        }
        Ok(self)
    }

    /// Sets the top border; chainable.
    fn set_border_top(&self, border: Border, env: &mut JNIEnv<'a>) -> (r: Result<
        &Self,
        ForeignCallError,
    >)
        ensures
            r matches Ok(me) ==> me == self,
            r matches Err(e) ==> e is Runtime,
    {
        let border_obj = match border.get_java_constant(env) {
            Ok(v) => v,
            Err(err) => {
                return Err(err);
            },
        };
        match invoke_on(
            env,
            self.as_obj(),
            "setBorderTop",
            "(Lcom/itextpdf/layout/borders/Border;)Lcom/itextpdf/layout/IPropertyContainer;",
            &[dispatch::arg_obj(&border_obj)],
        ) {
            Ok(_) => (),
            Err(err) => {
                return Err(err);
            },
        }
        Ok(self)
    }

    /// Sets the left border; chainable.
    fn set_border_left(&self, border: Border, env: &mut JNIEnv<'a>) -> (r: Result<
        &Self,
        ForeignCallError,
    >)
        ensures
            r matches Ok(me) ==> me == self,
            r matches Err(e) ==> e is Runtime,
    {
        let border_obj = match border.get_java_constant(env) {
            Ok(v) => v,
            Err(err) => {
                return Err(err);
            },
        };
        match invoke_on(
            env,
            self.as_obj(),
            "setBorderLeft",
            "(Lcom/itextpdf/layout/borders/Border;)Lcom/itextpdf/layout/IPropertyContainer;",
            &[dispatch::arg_obj(&border_obj)],
        ) {
            Ok(_) => (),
            Err(err) => {
                return Err(err);
            },
        }
        Ok(self)
    }

    /// Sets the right border; chainable.
    fn set_border_right(&self, border: Border, env: &mut JNIEnv<'a>) -> (r: Result<
        &Self,
        ForeignCallError,
    >)
        ensures
            r matches Ok(me) ==> me == self,
            r matches Err(e) ==> e is Runtime,
    {
        let border_obj = match border.get_java_constant(env) {
            Ok(v) => v,
            Err(err) => {
                return Err(err);
            },
        };
        match invoke_on(
            env,
            self.as_obj(),
            "setBorderRight",
            "(Lcom/itextpdf/layout/borders/Border;)Lcom/itextpdf/layout/IPropertyContainer;",
            &[dispatch::arg_obj(&border_obj)],
        ) {
            Ok(_) => (),
            Err(err) => {
                return Err(err);
            },
        }
        Ok(self)
    }

    /// Sets the element's horizontal alignment; chainable.
    fn set_horizontal_alignment(&self, alignment: HorizontalAlignment, env: &mut JNIEnv<'a>) -> (r:
        Result<&Self, ForeignCallError>)
        ensures
            r matches Ok(me) ==> me == self,
            r matches Err(e) ==> e is Runtime,
    {
        let halign = match alignment.get_java_value(env) {
            Ok(v) => v,
            Err(err) => {
                return Err(err);
            },
        };
        match invoke_on(
            env,
            self.as_obj(),
            "setHorizontalAlignment",
            "(Lcom/itextpdf/layout/property/HorizontalAlignment;)Lcom/itextpdf/layout/IPropertyContainer;",
            &[dispatch::arg_obj(&halign)],
        ) {
            Ok(_) => (),
            Err(err) => {
                return Err(err);
            },
        }
        Ok(self)
    }

    /// Sets the element's text alignment; chainable.
    fn set_text_alignment(&self, alignment: TextAlignment, env: &mut JNIEnv<'a>) -> (r: Result<
        &Self,
        ForeignCallError,
    >)
        ensures
            r matches Ok(me) ==> me == self,
            r matches Err(e) ==> e is Runtime,
    {
        let talign = match alignment.get_java_value(env) {
            Ok(v) => v,
            Err(err) => {
                return Err(err);
            },
        };
        match invoke_on(
            env,
            self.as_obj(),
            "setTextAlignment",
            "(Lcom/itextpdf/layout/property/TextAlignment;)Lcom/itextpdf/layout/IPropertyContainer;",
            &[dispatch::arg_obj(&talign)],
        ) {
            Ok(_) => (),
            Err(err) => {
                return Err(err);
            },
        }
        Ok(self)
    }

    /// Emphasizes the element's text in bold; chainable.
    fn set_bold(&self, env: &mut JNIEnv<'a>) -> (r: Result<&Self, ForeignCallError>)
        ensures
            r matches Ok(me) ==> me == self,
            r matches Err(e) ==> e is Runtime,
    {
        match invoke_on(
            env,
            self.as_obj(),
            "setBold",
            "()Lcom/itextpdf/layout/IPropertyContainer;",
            &[],
        ) {
            Ok(_) => (),
            Err(err) => {
                return Err(err);
            },
        }
        Ok(self)
    }

    /// Emphasizes the element's text in italics; chainable.
    fn set_italic(&self, env: &mut JNIEnv<'a>) -> (r: Result<&Self, ForeignCallError>)
        ensures
            r matches Ok(me) ==> me == self,
            r matches Err(e) ==> e is Runtime,
    {
        match invoke_on(
            env,
            self.as_obj(),
            "setItalic",
            "()Lcom/itextpdf/layout/IPropertyContainer;",
            &[],
        ) {
            Ok(_) => (),
            Err(err) => {
                return Err(err);
            },
        }
        Ok(self)
    }

    /// Sets the element's font size in point units; chainable.
    fn set_font_size(&self, font_size: Dec, env: &mut JNIEnv<'a>) -> (r: Result<
        &Self,
        ForeignCallError,
    >)
        ensures
            r matches Ok(me) ==> me == self,
            r matches Err(e) ==> e is Runtime,
    {
        let sv = match marshal::float_value(env, &font_size) {
            Ok(v) => v,
            Err(err) => {
                return Err(err);
            },
        };
        match invoke_on(
            env,
            self.as_obj(),
            "setFontSize",
            "(F)Lcom/itextpdf/layout/IPropertyContainer;",
            &[dispatch::arg_of_value(&sv)],
        ) {
            Ok(_) => (),
            Err(err) => {
                return Err(err);
            },
        }
        Ok(self)
    }

    /// Sets the element's font color; chainable.
    fn set_font_color(&self, color: &Color<'a>, env: &mut JNIEnv<'a>) -> (r: Result<
        &Self,
        ForeignCallError,
    >)
        ensures
            r matches Ok(me) ==> me == self,
            r matches Err(e) ==> e is Runtime,
    {
        match invoke_on(
            env,
            self.as_obj(),
            "setFontColor",
            "(Lcom/itextpdf/kernel/colors/Color;)Lcom/itextpdf/layout/IPropertyContainer;",
            &[dispatch::arg_obj(color.as_obj())],
        ) {
            Ok(_) => (),
            Err(err) => {
                return Err(err);
            },
        }
        Ok(self)
    }

    /// Sets the element's font color with an opacity between zero and one;
    /// chainable.
    fn set_font_color_with_opacity(&self, color: &Color<'a>, opacity: Dec, env: &mut JNIEnv<'a>)
        -> (r: Result<&Self, ForeignCallError>)
        ensures
            r matches Ok(me) ==> me == self,
            r matches Err(e) ==> e is Runtime,
    {
        let ov = match marshal::float_value(env, &opacity) {
            Ok(v) => v,
            Err(err) => {
                return Err(err);
            },
        };
        match invoke_on(
            env,
            self.as_obj(),
            "setFontColor",
            "(Lcom/itextpdf/kernel/colors/Color;F)Lcom/itextpdf/layout/IPropertyContainer;",
            &[dispatch::arg_obj(color.as_obj()), dispatch::arg_of_value(&ov)],
        ) {
            Ok(_) => (),
            Err(err) => {
                return Err(err);
            },
        }
        Ok(self)
    }

    /// Assigns a font to the element; chainable.
    fn set_font(&self, font: &PdfFont<'a>, env: &mut JNIEnv<'a>) -> (r: Result<
        &Self,
        ForeignCallError,
    >)
        ensures
            r matches Ok(me) ==> me == self,
            r matches Err(e) ==> e is Runtime,
    {
        match invoke_on(
            env,
            self.as_obj(),
            "setFont",
            "(Lcom/itextpdf/kernel/font/PdfFont;)Lcom/itextpdf/layout/IPropertyContainer;",
            &[dispatch::arg_obj(font.as_obj())],
        ) {
            Ok(_) => (),
            Err(err) => {
                return Err(err);
            },
        }
        Ok(self)
    }
}

/// The block-sizing capability: chainable setters for width, height, the
/// four margins and vertical alignment, shared by every block element type
/// that declares conformance.
pub trait BlockElement<'a>: Handle<'a> {
    /// Sets the element's width in point units; chainable.
    fn set_width(&self, width: Dec, env: &mut JNIEnv<'a>) -> (r: Result<&Self, ForeignCallError>)
        ensures
            r matches Ok(me) ==> me == self,
            r matches Err(e) ==> e is Runtime,
    {
        let wv = match marshal::float_value(env, &width) {
            Ok(v) => v,
            Err(err) => {
                return Err(err);
            },
        };
        match invoke_on(
            env,
            self.as_obj(),
            "setWidth",
            "(F)Lcom/itextpdf/layout/element/IElement;",
            &[dispatch::arg_of_value(&wv)],
        ) {
            Ok(_) => (),
            Err(err) => {
                return Err(err);
            },
        }
        Ok(self)
    }

    /// Sets the element's height in point units; chainable.
    fn set_height(&self, height: Dec, env: &mut JNIEnv<'a>) -> (r: Result<&Self, ForeignCallError>)
        ensures
            r matches Ok(me) ==> me == self,
            r matches Err(e) ==> e is Runtime,
    {
        let hv = match marshal::float_value(env, &height) {
            Ok(v) => v,
            Err(err) => {
                return Err(err);
            },
        };
        match invoke_on(
            env,
            self.as_obj(),
            "setHeight",
            "(F)Lcom/itextpdf/layout/element/IElement;",
            &[dispatch::arg_of_value(&hv)],
        ) {
            Ok(_) => (),
            Err(err) => {
                return Err(err);
            },
        }
        Ok(self)
    }

    /// Sets the element's bottom margin; chainable.
    fn set_margin_bottom(&self, margin: Dec, env: &mut JNIEnv<'a>) -> (r: Result<
        &Self,
        ForeignCallError,
    >)
        ensures
            r matches Ok(me) ==> me == self,
            r matches Err(e) ==> e is Runtime,
    {
        let mv = match marshal::float_value(env, &margin) {
            Ok(v) => v,
            Err(err) => {
                return Err(err);
            },
        };
        match invoke_on(
            env,
            self.as_obj(),
            "setMarginBottom",
            "(F)Lcom/itextpdf/layout/element/IElement;",
            &[dispatch::arg_of_value(&mv)],
        ) {
            Ok(_) => (),
            Err(err) => {
                return Err(err);
            },
        }
        Ok(self)
    }

    /// Sets the element's top margin; chainable.
    fn set_margin_top(&self, margin: Dec, env: &mut JNIEnv<'a>) -> (r: Result<
        &Self,
        ForeignCallError,
    >)
        ensures
            r matches Ok(me) ==> me == self,
            r matches Err(e) ==> e is Runtime,
    {
        let mv = match marshal::float_value(env, &margin) {
            Ok(v) => v,
            Err(err) => {
                return Err(err);
            },
        };
        match invoke_on(
            env,
            self.as_obj(),
            "setMarginTop",
            "(F)Lcom/itextpdf/layout/element/IElement;",
            &[dispatch::arg_of_value(&mv)],
        ) {
            Ok(_) => (),
            Err(err) => {
                return Err(err);
            },
        }
        Ok(self)
    }

    /// Sets the element's left margin; chainable.
    fn set_margin_left(&self, margin: Dec, env: &mut JNIEnv<'a>) -> (r: Result<
        &Self,
        ForeignCallError,
    >)
        ensures
            r matches Ok(me) ==> me == self,
            r matches Err(e) ==> e is Runtime,
    {
        let mv = match marshal::float_value(env, &margin) {
            Ok(v) => v,
            Err(err) => {
                return Err(err);
            },
        };
        match invoke_on(
            env,
            self.as_obj(),
            "setMarginLeft",
            "(F)Lcom/itextpdf/layout/element/IElement;",
            &[dispatch::arg_of_value(&mv)],
        ) {
            Ok(_) => (),
            Err(err) => {
                return Err(err);
            },
        }
        Ok(self)
    }

    /// Sets the element's right margin; chainable.
    fn set_margin_right(&self, margin: Dec, env: &mut JNIEnv<'a>) -> (r: Result<
        &Self,
        ForeignCallError,
    >)
        ensures
            r matches Ok(me) ==> me == self,
            r matches Err(e) ==> e is Runtime,
    {
        let mv = match marshal::float_value(env, &margin) {
            Ok(v) => v,
            Err(err) => {
                return Err(err);
            },
        };
        match invoke_on(
            env,
            self.as_obj(),
            "setMarginRight",
            "(F)Lcom/itextpdf/layout/element/IElement;",
            &[dispatch::arg_of_value(&mv)],
        ) {
            Ok(_) => (),
            Err(err) => {
                return Err(err);
            },
        }
        Ok(self)
    }

    /// Sets the element's vertical alignment; chainable.
    fn set_vertical_alignment(&self, alignment: VerticalAlignment, env: &mut JNIEnv<'a>) -> (r:
        Result<&Self, ForeignCallError>)
        ensures
            r matches Ok(me) ==> me == self,
            r matches Err(e) ==> e is Runtime,
    {
        let valign = match alignment.get_java_value(env) {
            Ok(v) => v,
            Err(err) => {
                return Err(err);
            },
        };
        match invoke_on(
            env,
            self.as_obj(),
            "setVerticalAlignment",
            "(Lcom/itextpdf/layout/property/VerticalAlignment;)Lcom/itextpdf/layout/element/IElement;",
            &[dispatch::arg_obj(&valign)],
        ) {
            Ok(_) => (),
            Err(err) => {
                return Err(err);
            },
        }
        Ok(self)
    }
}

/// The root-container capability: adding child elements to a container,
/// shared by the document and the canvas. On success the receiver is
/// returned, so additions chain.
pub trait RootElement<'a>: ElementPropertyContainer<'a> {
    /// Adds a block element to the container; chainable.
    fn add<F: BlockElement<'a>>(&self, element: &F, env: &mut JNIEnv<'a>) -> (r: Result<
        &Self,
        ForeignCallError,
    >)
        ensures
            r matches Ok(me) ==> me == self,
            r matches Err(e) ==> e is Runtime,
    {
        match invoke_on(
            env,
            self.as_obj(),
            "add",
            "(Lcom/itextpdf/layout/element/IBlockElement;)Lcom/itextpdf/layout/IPropertyContainer;",
            &[dispatch::arg_obj(element.as_obj())],
        ) {
            Ok(_) => (),
            Err(err) => {
                return Err(err);
            },
        }
        Ok(self)
    }

    /// Adds an image to the container; chainable.
    fn add_image(&self, element: &Image<'a>, env: &mut JNIEnv<'a>) -> (r: Result<
        &Self,
        ForeignCallError,
    >)
        ensures
            r matches Ok(me) ==> me == self,
            r matches Err(e) ==> e is Runtime,
    {
        match invoke_on(
            env,
            self.as_obj(),
            "add",
            "(Lcom/itextpdf/layout/element/Image;)Lcom/itextpdf/layout/IPropertyContainer;",
            &[dispatch::arg_obj(element.as_obj())],
        ) {
            Ok(_) => (),
            Err(err) => {
                return Err(err);
            },
        }
        Ok(self)
    }
}

/// The element capability: a marker for anything placeable in a container.
pub trait Element<'a>: Handle<'a> {

}

impl<'a, T: ElementPropertyContainer<'a>> ElementPropertyContainer<'a> for &T {

}

impl<'a, T: BlockElement<'a>> BlockElement<'a> for &T {

}

impl<'a, T: RootElement<'a>> RootElement<'a> for &T {

}

impl<'a, T: Element<'a>> Element<'a> for &T {

}

/// The foreign layout document: the top-level container of elements,
/// writing into a document object. Its `close` operation is the one
/// required terminal step: the backing output buffer is complete only after
/// it.
pub struct Document<'a>(pub(crate) JObject<'a>);

impl<'a> Handle<'a> for Document<'a> {
    closed spec fn captured(&self) -> JObject<'a> {
        self.0
    }

    fn as_obj(&self) -> (r: &JObject<'a>) {
        proof {
            assert(self.captured() == self.0);
        }
        &self.0
    }
}

impl<'a> ElementPropertyContainer<'a> for Document<'a> {

}

impl<'a> RootElement<'a> for Document<'a> {

}

impl<'a> Document<'a> {
    /// Wraps a raw foreign reference without validating its runtime class.
    pub fn from_raw(obj: JObject<'a>) -> (r: Self)
        ensures
            r.captured() == obj,
    {
        Document(obj)
    }

    /// Allocates a layout document over the given document object.
    pub fn new(pdf_document: &PdfDocument<'a>, env: &mut JNIEnv<'a>) -> (r: Result<
        Self,
        ForeignCallError,
    >)
        ensures
            r matches Err(e) ==> e is Runtime,
    {
        let obj = match dispatch::new_object(
            env,
            "com/itextpdf/layout/Document",
            "(Lcom/itextpdf/kernel/pdf/PdfDocument;)V",
            &[dispatch::arg_obj(pdf_document.as_obj())],
        ) {
            Ok(v) => v,
            Err(err) => {
                return Err(ForeignCallError::Runtime(err));
            },
        };
        Ok(Document(obj))
    }

    /// Allocates a layout document with an explicit page size and flushing
    /// policy.
    pub fn new_with_flush(
        pdf_document: &PdfDocument<'a>,
        page_size: &PageSize<'a>,
        immediate_flush: bool,
        env: &mut JNIEnv<'a>,
    ) -> (r: Result<Self, ForeignCallError>)
        ensures
            r matches Err(e) ==> e is Runtime,
    {
        let obj = match dispatch::new_object(
            env,
            "com/itextpdf/layout/Document",
            "(Lcom/itextpdf/kernel/pdf/PdfDocument;Lcom/itextpdf/kernel/geom/PageSize;Z)V",
            &[
                dispatch::arg_obj(pdf_document.as_obj()),
                dispatch::arg_obj(page_size.as_obj()),
                dispatch::arg_bool(immediate_flush),
            ],
        ) {
            Ok(v) => v,
            Err(err) => {
                return Err(ForeignCallError::Runtime(err));
            },
        };
        Ok(Document(obj))
    }

    /// Sets the document's four margins in point units; chainable.
    pub fn set_margins(&self, top: Dec, right: Dec, bottom: Dec, left: Dec, env: &mut JNIEnv<'a>)
        -> (r: Result<&Self, ForeignCallError>)
        ensures
            r matches Ok(me) ==> me == self,
            r matches Err(e) ==> e is Runtime,
    {
        let tv = match marshal::float_value(env, &top) {
            Ok(v) => v,
            Err(err) => {
                return Err(err);
            },
        };
        let rv = match marshal::float_value(env, &right) {
            Ok(v) => v,
            Err(err) => {
                return Err(err);
            },
        };
        let bv = match marshal::float_value(env, &bottom) {
            Ok(v) => v,
            Err(err) => {
                return Err(err);
            },
        };
        let lv = match marshal::float_value(env, &left) {
            Ok(v) => v,
            Err(err) => {
                return Err(err);
            },
        };
        match dispatch::call_method(
            env,
            self.as_obj(),
            "setMargins",
            "(FFFF)V",
            &[
                dispatch::arg_of_value(&tv),
                dispatch::arg_of_value(&rv),
                dispatch::arg_of_value(&bv),
                dispatch::arg_of_value(&lv),
            ],
        ) {
            Ok(_) => (),
            Err(err) => {
                return Err(ForeignCallError::Runtime(err));
            },
        }
        Ok(self)
    }

    /// Closes the document, consuming the handle: the foreign runtime
    /// finalizes and flushes everything into the backing output buffer. The
    /// buffer is complete only after this call.
    pub fn close(self, env: &mut JNIEnv<'a>) -> (r: Result<(), ForeignCallError>)
        ensures
            r matches Err(e) ==> e is Runtime,
    {
        match dispatch::call_method(env, &self.0, "close", "()V", &[]) {
            Ok(_) => (),
            Err(err) => {
                return Err(ForeignCallError::Runtime(err));
            },
        }
        Ok(())
    }

    /// Reads the document's left margin as a decimal quantity, through the
    /// decimal text the foreign runtime prints for it; a reading the runtime
    /// prints in exponent notation is a number-format fault.
    pub fn get_left_margin(&self, env: &mut JNIEnv<'a>) -> Result<Dec, ForeignCallError> {
        let value = match dispatch::call_method(env, self.as_obj(), "getLeftMargin", "()F", &[]) {
            Ok(v) => v,
            Err(err) => {
                return Err(ForeignCallError::Runtime(err));
            },
        };
        let text = match marshal::float_text(env, &value) {
            Ok(v) => v,
            Err(err) => {
                return Err(err);
            },
        };
        Dec::parse_decimal_text(text.as_str())
    }

    /// Reads the document's right margin as a decimal quantity, through the
    /// decimal text the foreign runtime prints for it; a reading the runtime
    /// prints in exponent notation is a number-format fault.
    pub fn get_right_margin(&self, env: &mut JNIEnv<'a>) -> Result<Dec, ForeignCallError> {
        let value = match dispatch::call_method(env, self.as_obj(), "getRightMargin", "()F", &[]) {
            Ok(v) => v,
            Err(err) => {
                return Err(ForeignCallError::Runtime(err));
            },
        };
        let text = match marshal::float_text(env, &value) {
            Ok(v) => v,
            Err(err) => {
                return Err(err);
            },
        };
        Dec::parse_decimal_text(text.as_str())
    }

    /// Reads the document's bottom margin as a decimal quantity, through the
    /// decimal text the foreign runtime prints for it; a reading the runtime
    /// prints in exponent notation is a number-format fault.
    pub fn get_bottom_margin(&self, env: &mut JNIEnv<'a>) -> Result<Dec, ForeignCallError> {
        let value = match dispatch::call_method(env, self.as_obj(), "getBottomMargin", "()F", &[]) {
            Ok(v) => v,
            Err(err) => {
                return Err(ForeignCallError::Runtime(err));
            },
        };
        let text = match marshal::float_text(env, &value) {
            Ok(v) => v,
            Err(err) => {
                return Err(err);
            },
        };
        Dec::parse_decimal_text(text.as_str())
    }

    /// Reads the document object this layout document writes into.
    pub fn get_pdf_document(&self, env: &mut JNIEnv<'a>) -> (r: Result<
        PdfDocument<'a>,
        ForeignCallError,
    >)
        ensures
            r matches Err(e) ==> e is Runtime,
    {
        let value = match dispatch::call_method(
            env,
            self.as_obj(),
            "getPdfDocument",
            "()Lcom/itextpdf/kernel/pdf/PdfDocument;",
            &[],
        ) {
            Ok(v) => v,
            Err(err) => {
                return Err(ForeignCallError::Runtime(err));
            },
        };
        match dispatch::value_object(value) {
            Ok(v) => Ok(PdfDocument::from_raw(v)),
            Err(err) => Err(ForeignCallError::Runtime(err)),
        }
    }
}

/// A foreign table element with fixed column widths.
pub struct Table<'a>(pub(crate) JObject<'a>);

impl<'a> Handle<'a> for Table<'a> {
    closed spec fn captured(&self) -> JObject<'a> {
        self.0
    }

    fn as_obj(&self) -> (r: &JObject<'a>) {
        proof {
            assert(self.captured() == self.0);
        }
        &self.0
    }
}

impl<'a> ElementPropertyContainer<'a> for Table<'a> {

}

impl<'a> Element<'a> for Table<'a> {

}

impl<'a> BlockElement<'a> for Table<'a> {

}

impl<'a> Table<'a> {
    /// Wraps a raw foreign reference without validating its runtime class.
    pub fn from_raw(obj: JObject<'a>) -> (r: Self)
        ensures
            r.captured() == obj,
    {
        Table(obj)
    }

    /// Allocates a table whose columns have the given widths in point units,
    /// marshaled into a foreign float array element by element.
    pub fn new(point_column_widths: &[Dec], env: &mut JNIEnv<'a>) -> (r: Result<
        Self,
        ForeignCallError,
    >)
        requires
            crate::fits_foreign_len(point_column_widths@.len()),
        ensures
            r matches Err(e) ==> e is Runtime,
    {
        let array = match marshal::float_array(env, point_column_widths) {
            Ok(v) => v,
            Err(err) => {
                return Err(err);
            },
        };
        let obj = match dispatch::new_object(
            env,
            "com/itextpdf/layout/element/Table",
            "([F)V",
            &[dispatch::arg_obj(&array)],
        ) {
            Ok(v) => v,
            Err(err) => {
                return Err(ForeignCallError::Runtime(err));
            },
        };
        Ok(Table(obj))
    }

    /// Starts a new row in the table; chainable.
    pub fn start_new_row(&self, env: &mut JNIEnv<'a>) -> (r: Result<&Self, ForeignCallError>)
        ensures
            r matches Ok(me) ==> me == self,
            r matches Err(e) ==> e is Runtime,
    {
        match dispatch::call_method(
            env,
            self.as_obj(),
            "startNewRow",
            "()Lcom/itextpdf/layout/element/Table;",
            &[],
        ) {
            Ok(_) => (),
            Err(err) => {
                return Err(ForeignCallError::Runtime(err));
            },
        }
        Ok(self)
    }

    /// Appends a cell to the table; chainable.
    pub fn add_cell(&self, cell: &Cell<'a>, env: &mut JNIEnv<'a>) -> (r: Result<
        &Self,
        ForeignCallError,
    >)
        ensures
            r matches Ok(me) ==> me == self,
            r matches Err(e) ==> e is Runtime,
    {
        match dispatch::call_method(
            env,
            self.as_obj(),
            "addCell",
            "(Lcom/itextpdf/layout/element/Cell;)Lcom/itextpdf/layout/element/Table;",
            &[dispatch::arg_obj(cell.as_obj())],
        ) {
            Ok(_) => (),
            Err(err) => {
                return Err(ForeignCallError::Runtime(err));
            },
        }
        Ok(self)
    }

    /// Lets the table take all available width; chainable.
    pub fn use_all_available_width(&self, env: &mut JNIEnv<'a>) -> (r: Result<
        &Self,
        ForeignCallError,
    >)
        ensures
            r matches Ok(me) ==> me == self,
            r matches Err(e) ==> e is Runtime,
    {
        match dispatch::call_method(
            env,
            self.as_obj(),
            "useAllAvailableWidth",
            "()Lcom/itextpdf/layout/element/Table;",
            &[],
        ) {
            Ok(_) => (),
            Err(err) => {
                return Err(ForeignCallError::Runtime(err));
            },
        }
        Ok(self)
    }

    /// Fixes the table's layout algorithm; chainable.
    pub fn set_fixed_layout(&self, env: &mut JNIEnv<'a>) -> (r: Result<&Self, ForeignCallError>)
        ensures
            r matches Ok(me) ==> me == self,
            r matches Err(e) ==> e is Runtime,
    {
        match dispatch::call_method(
            env,
            self.as_obj(),
            "setFixedLayout",
            "()Lcom/itextpdf/layout/element/Table;",
            &[],
        ) {
            Ok(_) => (),
            Err(err) => {
                return Err(ForeignCallError::Runtime(err));
            },
        }
        Ok(self)
    }
}

/// A foreign table cell.
pub struct Cell<'a>(pub(crate) JObject<'a>);

impl<'a> Handle<'a> for Cell<'a> {
    closed spec fn captured(&self) -> JObject<'a> {
        self.0
    }

    fn as_obj(&self) -> (r: &JObject<'a>) {
        proof {
            assert(self.captured() == self.0);
        }
        &self.0
    }
}

impl<'a> ElementPropertyContainer<'a> for Cell<'a> {

}

impl<'a> BlockElement<'a> for Cell<'a> {

}

impl<'a> Element<'a> for Cell<'a> {

}

impl<'a> Cell<'a> {
    /// Wraps a raw foreign reference without validating its runtime class.
    pub fn from_raw(obj: JObject<'a>) -> (r: Self)
        ensures
            r.captured() == obj,
    {
        Cell(obj)
    }

    /// Allocates a cell spanning one row and one column.
    pub fn new(env: &mut JNIEnv<'a>) -> (r: Result<Self, ForeignCallError>)
        ensures
            r matches Err(e) ==> e is Runtime,
    {
        let obj = match dispatch::new_object(env, "com/itextpdf/layout/element/Cell", "()V", &[]) {
            Ok(v) => v,
            Err(err) => {
                return Err(ForeignCallError::Runtime(err));
            },
        };
        Ok(Cell(obj))
    }

    /// Allocates a cell spanning the given numbers of rows and columns.
    pub fn new_with_span(rowspan: i32, colspan: i32, env: &mut JNIEnv<'a>) -> (r: Result<
        Self,
        ForeignCallError,
    >)
        ensures
            r matches Err(e) ==> e is Runtime,
    {
        let obj = match dispatch::new_object(
            env,
            "com/itextpdf/layout/element/Cell",
            "(II)V",
            &[dispatch::arg_int(rowspan), dispatch::arg_int(colspan)],
        ) {
            Ok(v) => v,
            Err(err) => {
                return Err(ForeignCallError::Runtime(err));
            },
        };
        Ok(Cell(obj))
    }

    /// Adds an image to the cell; chainable.
    pub fn add_image(&self, image: &Image<'a>, env: &mut JNIEnv<'a>) -> (r: Result<
        &Self,
        ForeignCallError,
    >)
        ensures
            r matches Ok(me) ==> me == self,
            r matches Err(e) ==> e is Runtime,
    {
        match dispatch::call_method(
            env,
            self.as_obj(),
            "add",
            "(Lcom/itextpdf/layout/element/IBlockElement;)Lcom/itextpdf/layout/element/Cell;",
            &[dispatch::arg_obj(image.as_obj())],
        ) {
            Ok(_) => (),
            Err(err) => {
                return Err(ForeignCallError::Runtime(err));
            },
        }
        Ok(self)
    }

    /// Adds a block element to the cell; chainable.
    pub fn add<F: BlockElement<'a>>(&self, block_element: &F, env: &mut JNIEnv<'a>) -> (r: Result<
        &Self,
        ForeignCallError,
    >)
        ensures
            r matches Ok(me) ==> me == self,
            r matches Err(e) ==> e is Runtime,
    {
        match dispatch::call_method(
            env,
            self.as_obj(),
            "add",
            "(Lcom/itextpdf/layout/element/IBlockElement;)Lcom/itextpdf/layout/element/Cell;",
            &[dispatch::arg_obj(block_element.as_obj())],
        ) {
            Ok(_) => (),
            Err(err) => {
                return Err(ForeignCallError::Runtime(err));
            },
        }
        Ok(self)
    }
}

/// A foreign paragraph element.
pub struct Paragraph<'a>(pub(crate) JObject<'a>);

impl<'a> Handle<'a> for Paragraph<'a> {
    closed spec fn captured(&self) -> JObject<'a> {
        self.0
    }

    fn as_obj(&self) -> (r: &JObject<'a>) {
        proof {
            assert(self.captured() == self.0);
        }
        &self.0
    }
}

impl<'a> BlockElement<'a> for Paragraph<'a> {

}

impl<'a> ElementPropertyContainer<'a> for Paragraph<'a> {

}

impl<'a> Element<'a> for Paragraph<'a> {

}

impl<'a> Paragraph<'a> {
    /// Wraps a raw foreign reference without validating its runtime class.
    pub fn from_raw(obj: JObject<'a>) -> (r: Self)
        ensures
            r.captured() == obj,
    {
        Paragraph(obj)
    }

    /// Allocates an empty paragraph.
    pub fn new(env: &mut JNIEnv<'a>) -> (r: Result<Self, ForeignCallError>)
        ensures
            r matches Err(e) ==> e is Runtime,
    {
        let obj = match dispatch::new_object(env, "com/itextpdf/layout/element/Paragraph", "()V", &[]) {
            Ok(v) => v,
            Err(err) => {
                return Err(ForeignCallError::Runtime(err));
            },
        };
        Ok(Paragraph(obj))
    }

    /// Allocates a paragraph holding the given text, passed as a freshly
    /// allocated foreign string.
    pub fn new_with_text(text: &str, env: &mut JNIEnv<'a>) -> (r: Result<Self, ForeignCallError>)
        ensures
            r matches Err(e) ==> e is Runtime,
    {
        let string = match dispatch::new_string(env, text) {
            Ok(v) => v,
            Err(err) => {
                return Err(ForeignCallError::Runtime(err));
            },
        };
        let obj = match dispatch::new_object(
            env,
            "com/itextpdf/layout/element/Paragraph",
            "(Ljava/lang/String;)V",
            &[dispatch::arg_obj(&string)],
        ) {
            Ok(v) => v,
            Err(err) => {
                return Err(ForeignCallError::Runtime(err));
            },
        };
        Ok(Paragraph(obj))
    }
}

/// A foreign line-separator element.
pub struct LineSeparator<'a>(pub(crate) JObject<'a>);

impl<'a> Handle<'a> for LineSeparator<'a> {
    closed spec fn captured(&self) -> JObject<'a> {
        self.0
    }

    fn as_obj(&self) -> (r: &JObject<'a>) {
        proof {
            assert(self.captured() == self.0);
        }
        &self.0
    }
}

impl<'a> BlockElement<'a> for LineSeparator<'a> {

}

impl<'a> ElementPropertyContainer<'a> for LineSeparator<'a> {

}

impl<'a> Element<'a> for LineSeparator<'a> {

}

impl<'a> LineSeparator<'a> {
    /// Wraps a raw foreign reference without validating its runtime class.
    pub fn from_raw(obj: JObject<'a>) -> (r: Self)
        ensures
            r.captured() == obj,
    {
        LineSeparator(obj)
    }

    /// Allocates a separator drawn with the given solid line.
    pub fn new_solid(line: SolidLine<'a>, env: &mut JNIEnv<'a>) -> (r: Result<
        Self,
        ForeignCallError,
    >)
        ensures
            r matches Err(e) ==> e is Runtime,
    {
        let obj = match dispatch::new_object(
            env,
            "com/itextpdf/layout/element/LineSeparator",
            "(Lcom/itextpdf/kernel/pdf/canvas/draw/ILineDrawer;)V",
            &[dispatch::arg_obj(line.as_obj())],
        ) {
            Ok(v) => v,
            Err(err) => {
                return Err(ForeignCallError::Runtime(err));
            },
        };
        Ok(LineSeparator(obj))
    }
}

/// A foreign image element.
pub struct Image<'a>(pub(crate) JObject<'a>);

impl<'a> Handle<'a> for Image<'a> {
    closed spec fn captured(&self) -> JObject<'a> {
        self.0
    }

    fn as_obj(&self) -> (r: &JObject<'a>) {
        proof {
            assert(self.captured() == self.0);
        }
        &self.0
    }
}

impl<'a> ElementPropertyContainer<'a> for Image<'a> {

}

impl<'a> Element<'a> for Image<'a> {

}

impl<'a> Image<'a> {
    /// Wraps a raw foreign reference without validating its runtime class.
    pub fn from_raw(obj: JObject<'a>) -> (r: Self)
        ensures
            r.captured() == obj,
    {
        Image(obj)
    }

    /// Allocates an image element over decoded image data.
    pub fn new(image_data: ImageData<'a>, env: &mut JNIEnv<'a>) -> (r: Result<Self, ForeignCallError>)
        ensures
            r matches Err(e) ==> e is Runtime,
    {
        let obj = match dispatch::new_object(
            env,
            "com/itextpdf/layout/element/Image",
            "(Lcom/itextpdf/io/image/ImageData;)V",
            &[dispatch::arg_obj(image_data.as_obj())],
        ) {
            Ok(v) => v,
            Err(err) => {
                return Err(ForeignCallError::Runtime(err));
            },
        };
        Ok(Image(obj))
    }

    /// Sets the image's width in point units; chainable.
    pub fn set_width(&self, width: Dec, env: &mut JNIEnv<'a>) -> (r: Result<
        &Self,
        ForeignCallError,
    >)
        ensures
            r matches Ok(me) ==> me == self,
            r matches Err(e) ==> e is Runtime,
    {
        let wv = match marshal::float_value(env, &width) {
            Ok(v) => v,
            Err(err) => {
                return Err(err);
            },
        };
        match dispatch::call_method(
            env,
            self.as_obj(),
            "setWidth",
            "(F)Lcom/itextpdf/layout/element/Image;",
            &[dispatch::arg_of_value(&wv)],
        ) {
            Ok(_) => (),
            Err(err) => {
                return Err(ForeignCallError::Runtime(err));
            },
        }
        Ok(self)
    }

    /// Sets the image's height in point units; chainable.
    pub fn set_height(&self, height: Dec, env: &mut JNIEnv<'a>) -> (r: Result<
        &Self,
        ForeignCallError,
    >)
        ensures
            r matches Ok(me) ==> me == self,
            r matches Err(e) ==> e is Runtime,
    {
        let hv = match marshal::float_value(env, &height) {
            Ok(v) => v,
            Err(err) => {
                return Err(err);
            },
        };
        match dispatch::call_method(
            env,
            self.as_obj(),
            "setHeight",
            "(F)Lcom/itextpdf/layout/element/Image;",
            &[dispatch::arg_of_value(&hv)],
        ) {
            Ok(_) => (),
            Err(err) => {
                return Err(ForeignCallError::Runtime(err));
            },
        }
        Ok(self)
    }
}

/// A foreign layout canvas: a root container drawing into a fixed area.
pub struct Canvas<'a>(pub(crate) JObject<'a>);

impl<'a> Handle<'a> for Canvas<'a> {
    closed spec fn captured(&self) -> JObject<'a> {
        self.0
    }

    fn as_obj(&self) -> (r: &JObject<'a>) {
        proof {
            assert(self.captured() == self.0);
        }
        &self.0
    }
}

impl<'a> ElementPropertyContainer<'a> for Canvas<'a> {

}

impl<'a> RootElement<'a> for Canvas<'a> {

}

impl<'a> Canvas<'a> {
    /// Wraps a raw foreign reference without validating its runtime class.
    pub fn from_raw(obj: JObject<'a>) -> (r: Self)
        ensures
            r.captured() == obj,
    {
        Canvas(obj)
    }

    /// Allocates a layout canvas over a low-level canvas, bounded by the
    /// given area.
    pub fn new_from_canvas(
        pdf_canvas: &PdfCanvas<'a>,
        root_area: &Rectangle<'a>,
        env: &mut JNIEnv<'a>,
    ) -> (r: Result<Self, ForeignCallError>)
        ensures
            r matches Err(e) ==> e is Runtime,
    {
        let obj = match dispatch::new_object(
            env,
            "com/itextpdf/layout/Canvas",
            "(Lcom/itextpdf/kernel/pdf/canvas/PdfCanvas;Lcom/itextpdf/kernel/geom/Rectangle;)V",
            &[dispatch::arg_obj(pdf_canvas.as_obj()), dispatch::arg_obj(root_area.as_obj())],
        ) {
            Ok(v) => v,
            Err(err) => {
                return Err(ForeignCallError::Runtime(err));
            },
        };
        Ok(Canvas(obj))
    }

    /// Allocates a layout canvas over a low-level canvas with an explicit
    /// flushing policy.
    pub fn new_from_canvas_flush(
        pdf_canvas: &PdfCanvas<'a>,
        root_area: &Rectangle<'a>,
        immediate_flush: bool,
        env: &mut JNIEnv<'a>,
    ) -> (r: Result<Self, ForeignCallError>)
        ensures
            r matches Err(e) ==> e is Runtime,
    {
        let obj = match dispatch::new_object(
            env,
            "com/itextpdf/layout/Canvas",
            "(Lcom/itextpdf/kernel/pdf/canvas/PdfCanvas;Lcom/itextpdf/kernel/geom/Rectangle;Z)V",
            &[
                dispatch::arg_obj(pdf_canvas.as_obj()),
                dispatch::arg_obj(root_area.as_obj()),
                dispatch::arg_bool(immediate_flush),
            ],
        ) {
            Ok(v) => v,
            Err(err) => {
                return Err(ForeignCallError::Runtime(err));
            },
        };
        Ok(Canvas(obj))
    }

    /// Allocates a layout canvas over a page, bounded by the given area.
    pub fn new_from_page(
        pdf_page: &PdfPage<'a>,
        root_area: &Rectangle<'a>,
        env: &mut JNIEnv<'a>,
    ) -> (r: Result<Self, ForeignCallError>)
        ensures
            r matches Err(e) ==> e is Runtime,
    {
        let obj = match dispatch::new_object(
            env,
            "com/itextpdf/layout/Canvas",
            "(Lcom/itextpdf/kernel/pdf/PdfPage;Lcom/itextpdf/kernel/geom/Rectangle;)V",
            &[dispatch::arg_obj(pdf_page.as_obj()), dispatch::arg_obj(root_area.as_obj())],
        ) {
            Ok(v) => v,
            Err(err) => {
                return Err(ForeignCallError::Runtime(err));
            },
        };
        Ok(Canvas(obj))
    }

    /// Performs an entire recalculation of the element flow on the canvas,
    /// taking into account all its current child elements; chainable.
    pub fn relayout(&self, env: &mut JNIEnv<'a>) -> (r: Result<&Self, ForeignCallError>)
        ensures
            r matches Ok(me) ==> me == self,
            r matches Err(e) ==> e is Runtime,
    {
        match dispatch::call_method(env, self.as_obj(), "relayout", "()V", &[]) {
            Ok(_) => (),
            Err(err) => {
                return Err(ForeignCallError::Runtime(err));
            },
        }
        Ok(self)
    }
}

} // verus!
