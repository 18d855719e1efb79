use itext_rs::barcode::BarcodeType;
use itext_rs::io::{PdfEncodings, StandardFont};
use itext_rs::kernel::ColorConstant;
use itext_rs::layout::{HorizontalAlignment, TextAlignment, VerticalAlignment};

#[test]
fn color_constant_names() {
    assert_eq!(ColorConstant::Black.constant_field_name(), "BLACK");
    assert_eq!(ColorConstant::DarkGray.constant_field_name(), "DARK_GRAY");
    assert_eq!(ColorConstant::LightGray.constant_field_name(), "LIGHT_GRAY");
    assert_eq!(ColorConstant::Yellow.constant_field_name(), "YELLOW");
}

#[test]
fn standard_font_names() {
    assert_eq!(StandardFont::Courier.constant_field_name(), "COURIER");
    assert_eq!(StandardFont::TimesBold.constant_field_name(), "TIMES_BOLD");
    assert_eq!(
        StandardFont::CourierBoldoblique.constant_field_name(),
        "COURIER_BOLDOBLIQUE"
    );
    assert_eq!(
        StandardFont::HelveticaBold.constant_field_name(),
        "HELVETICA_BOLD"
    );
    assert_eq!(
        StandardFont::HelveticaBoldoblique.constant_field_name(),
        "HELVETICA_BOLDOBLIQUE"
    );
    assert_eq!(
        StandardFont::HelveticaOblique.constant_field_name(),
        "HELVETICA_OBLIQUE"
    );
    assert_eq!(
        StandardFont::Zapfdingbats.constant_field_name(),
        "ZAPFDINGBATS"
    );
}

#[test]
fn encoding_names() {
    assert_eq!(PdfEncodings::Cp1250.constant_field_name(), "CP1250");
    assert_eq!(PdfEncodings::Cp1252.constant_field_name(), "CP1252");
    assert_eq!(PdfEncodings::Cp1257.constant_field_name(), "CP1257");
    assert_eq!(PdfEncodings::IdentityH.constant_field_name(), "IDENTITY_H");
    assert_eq!(PdfEncodings::Macroman.constant_field_name(), "MACROMAN");
    assert_eq!(
        PdfEncodings::PdfDocEncoding.constant_field_name(),
        "PDF_DOC_ENCODING"
    );
    assert_eq!(
        PdfEncodings::UnicodeBigUnmarked.constant_field_name(),
        "UNICODE_BIG_UNMARKED"
    );
    assert_eq!(PdfEncodings::Utf8.constant_field_name(), "UTF8");
}

#[test]
fn alignment_names() {
    assert_eq!(HorizontalAlignment::Left.constant_field_name(), "LEFT");
    assert_eq!(HorizontalAlignment::Center.constant_field_name(), "CENTER");
    assert_eq!(VerticalAlignment::Middle.constant_field_name(), "MIDDLE");
    assert_eq!(VerticalAlignment::Top.constant_field_name(), "TOP");
}

#[test]
fn text_alignment_names() {
    assert_eq!(TextAlignment::Left.field_name(), "LEFT");
    assert_eq!(TextAlignment::Justified.field_name(), "JUSTIFIED");
    assert_eq!(TextAlignment::JustifiedAll.field_name(), "JUSTIFIED_ALL");
}

#[test]
fn barcode_type_names() {
    assert_eq!(BarcodeType::Ean13.field_name(), "EAN13");
    assert_eq!(BarcodeType::Ean8.field_name(), "EAN8");
    assert_eq!(BarcodeType::Upce.field_name(), "UPCE");
}

#[test]
fn resolution_is_deterministic_across_repeated_calls() {
    for _ in 0..3 {
        assert_eq!(
            ColorConstant::DarkGray.constant_field_name(),
            ColorConstant::DarkGray.constant_field_name()
        );
        assert_eq!(
            StandardFont::TimesRoman.constant_field_name(),
            StandardFont::TimesRoman.constant_field_name()
        );
        assert_eq!(
            PdfEncodings::Winansi.constant_field_name(),
            PdfEncodings::Winansi.constant_field_name()
        );
    }
}

#[test]
fn variant_names_feed_the_transformation() {
    assert_eq!(ColorConstant::DarkGray.variant_name(), "DarkGray");
    assert_eq!(StandardFont::TimesRoman.variant_name(), "TimesRoman");
    assert_eq!(PdfEncodings::Cp1250.variant_name(), "Cp1250");
}
