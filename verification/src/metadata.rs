use vstd::prelude::*;

use std::io::Cursor;

use crate::capture_time::parse_capture_time;
use crate::capture_time::spec_parse_capture_time;
use crate::errors::PipelineError;
use crate::timestamp::Timestamp;

verus! {

/// The textual form of the original-capture-time field held by the
/// metadata container embedded in `file`, if the container parses and
/// the field is present.
pub uninterp spec fn exif_capture_text(file: Seq<u8>) -> Option<Seq<u8>>;

/// Relies on exif::Reader::read_from_container, Exif::get_field and
/// Field::display_value of the exif crate: what they find in a byte
/// buffer depends on the buffer alone. Returns the display text of the
/// original-capture-time field, or `None` when the container cannot be
/// parsed or the field is absent.
#[verifier::external_body]
fn read_capture_text(file: &Vec<u8>) -> (r: Option<Vec<u8>>)
    ensures
        r is Some <==> exif_capture_text(file@) is Some,
        r is Some ==> r->Some_0@ == exif_capture_text(file@)->Some_0,
{
    let exif = exif::Reader::new().read_from_container(&mut Cursor::new(file.as_slice())).ok()?;
    let field = exif.get_field(exif::Tag::DateTimeOriginal, exif::In::PRIMARY)?;
    Some(field.display_value().with_unit(&exif).to_string().into_bytes())
}

/// The capture timestamp recorded in one image file's bytes: the
/// capture-time field's text, parsed; `None` when the field is missing
/// or its text is not a valid capture time.
pub open spec fn spec_extract(file: Seq<u8>) -> Option<Timestamp> {
    match exif_capture_text(file) {
        Option::None => Option::None,
        Option::Some(text) => spec_parse_capture_time(text),
    }
}

/// Reads the capture timestamp out of one source image's bytes. Fails
/// with `Metadata` exactly when the metadata container cannot be
/// parsed, the capture-time field is absent, or its text does not name
/// a valid date and time.
pub fn extract_capture_time(file: &Vec<u8>) -> (r: Result<Timestamp, PipelineError>)
    ensures
        r is Ok <==> spec_extract(file@) is Some,
        r is Ok ==> r->Ok_0 == spec_extract(file@)->Some_0,
        r is Err ==> r->Err_0 == PipelineError::Metadata,
{
    match read_capture_text(file) {
        Option::None => Err(PipelineError::Metadata),
        Option::Some(text) => match parse_capture_time(&text) {
            Option::None => Err(PipelineError::Metadata),
            Option::Some(ts) => Ok(ts),
        },
    }
}

} // verus!
