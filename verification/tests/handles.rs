use itext_rs::error::ForeignCallError;
use itext_rs::handle::Handle;
use itext_rs::kernel::{PdfDocument, Rectangle};
use itext_rs::layout::{Cell, Paragraph};
use jni::objects::JObject;

#[test]
fn handles_wrap_and_expose_raw_references() {
    // The null reference is the one foreign reference obtainable without a
    // live runtime; wrapping and reading it back exercises the handle path.
    let doc = PdfDocument::from_raw(JObject::null());
    let obj = doc.as_obj();
    let _ = obj;
    let rect = Rectangle::from_raw(JObject::null());
    let _ = rect.as_obj();
    let cell = Cell::from_raw(JObject::null());
    let _ = cell.as_obj();
    let par = Paragraph::from_raw(JObject::null());
    let _ = par.as_obj();
}

#[test]
fn a_runtime_fault_is_carried_unchanged() {
    let fault = jni::errors::Error::NullPtr("call argument");
    let wrapped = ForeignCallError::from_runtime(fault);
    assert!(matches!(wrapped, ForeignCallError::Runtime(_)));
    let via_from = ForeignCallError::from(jni::errors::Error::JavaException);
    assert!(matches!(via_from, ForeignCallError::Runtime(_)));
    // A foreign call that comes back with the null reference is its own
    // fault kind, distinct from a runtime fault.
    let null_fault = ForeignCallError::NullObject;
    assert!(matches!(null_fault, ForeignCallError::NullObject));
}
