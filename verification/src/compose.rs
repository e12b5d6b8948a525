use vstd::prelude::*;

use std::io::Cursor;

use crate::errors::PipelineError;

verus! {

/// The fixed physical page width of the output document, in
/// millimetres (US Letter).
pub const PAGE_WIDTH_MM: u16 = 216;
/// The fixed physical page height of the output document, in
/// millimetres (US Letter).
pub const PAGE_HEIGHT_MM: u16 = 279;
/// The fixed offset of each page image from the page's origin corner,
/// in millimetres.
pub const IMAGE_OFFSET_MM: u16 = 2;

#[verifier::external_type_specification]
#[verifier::external_body]
pub struct ExPdfDocumentReference(printpdf::PdfDocumentReference);

#[verifier::external_type_specification]
#[verifier::external_body]
pub struct ExPdfLayerReference(printpdf::PdfLayerReference);

/// The document being assembled, together with the layer of the page
/// the next image goes onto. The fields are private and every value
/// is built by the wrappers below, so the layer always belongs to the
/// document beside it: a layer of a dropped or foreign document cannot
/// be paired with it.
pub struct PageCursor {
    doc: printpdf::PdfDocumentReference,
    layer: printpdf::PdfLayerReference,
}

/// Whether printpdf's JPEG decoding path accepts these bytes as an
/// embeddable image: a function of the bytes alone.
pub uninterp spec fn jpeg_decodable(bytes: Seq<u8>) -> bool;

/// One placed image: the bytes of the JPEG it was decoded from and
/// its (x, y) offset from the page origin, in millimetres.
pub type PlacedImage = (Seq<u8>, u16, u16);

/// The images placed into the document so far, in placement order.
pub uninterp spec fn doc_images(c: PageCursor) -> Seq<PlacedImage>;

/// The number of pages the document holds so far.
pub uninterp spec fn doc_page_count(c: PageCursor) -> nat;

/// The document's title and its conformance flags: whether an ICC
/// profile and whether XMP metadata are required to be embedded.
pub uninterp spec fn doc_meta(c: PageCursor) -> (Seq<char>, bool, bool);

/// The number of pages a reader of a serialized document finds in its
/// bytes: a function of the bytes alone.
pub uninterp spec fn pdf_page_total(bytes: Seq<u8>) -> nat;

/// Relies on PdfDocument::new, PdfDocumentReference::get_page and
/// PdfPageReference::get_layer: a fresh document holds exactly one
/// empty page of the given size and carries the given title; looking
/// up that page's initial layer changes nothing.
#[verifier::external_body]
fn pdf_new(title: &str, width_mm: u16, height_mm: u16, layer_name: &str) -> (r: PageCursor)
    ensures
        doc_images(r) == Seq::<PlacedImage>::empty(),
        doc_page_count(r) == 1,
        doc_meta(r).0 == title@,
{
    let (doc, page_idx, layer_idx) = printpdf::PdfDocument::new(
        title,
        printpdf::Mm(width_mm.into()),
        printpdf::Mm(height_mm.into()),
        layer_name,
    );
    let layer = doc.get_page(page_idx).get_layer(layer_idx);
    PageCursor { doc, layer }
}

/// Relies on PdfDocumentReference::with_conformance: it rewrites only
/// the conformance flags and leaves pages, images and title alone.
#[verifier::external_body]
fn pdf_with_conformance(c: PageCursor, icc: bool, xmp: bool) -> (r: PageCursor)
    ensures
        doc_images(r) == doc_images(c),
        doc_page_count(r) == doc_page_count(c),
        doc_meta(r) == (doc_meta(c).0, icc, xmp),
{
    let conformance = printpdf::PdfConformance::Custom(
        printpdf::CustomPdfConformance {
            requires_icc_profile: icc,
            requires_xmp_metadata: xmp,
            ..Default::default()
        },
    );
    PageCursor { doc: c.doc.with_conformance(conformance), layer: c.layer }
}

/// Relies on PdfDocumentReference::add_page (and get_page/get_layer
/// for the new page's initial layer): the document gains one empty
/// page of the given size, keeps its images and metadata, and the
/// cursor moves to the new page.
#[verifier::external_body]
fn pdf_add_page(c: PageCursor, width_mm: u16, height_mm: u16, layer_name: &str) -> (r: PageCursor)
    ensures
        doc_images(r) == doc_images(c),
        doc_page_count(r) == doc_page_count(c) + 1,
        doc_meta(r) == doc_meta(c),
{
    let (page_idx, layer_idx) = c.doc.add_page(
        printpdf::Mm(width_mm.into()),
        printpdf::Mm(height_mm.into()),
        layer_name,
    );
    let layer = c.doc.get_page(page_idx).get_layer(layer_idx);
    PageCursor { doc: c.doc, layer }
}

/// Relies on image_crate's JpegDecoder, printpdf's Image::try_from and
/// Image::add_to_layer: the decode succeeds or fails on the bytes
/// alone; on success the image is embedded into the cursor's page at
/// the given offset from the page origin, with no scaling or rotation,
/// and the document gains that image and no page. On failure nothing
/// is promised of the document, which the caller abandons.
#[verifier::external_body]
fn pdf_place_jpeg(c: PageCursor, jpeg: &Vec<u8>, x_mm: u16, y_mm: u16) -> (r: Result<
    PageCursor,
    PipelineError,
>)
    ensures
        r is Ok <==> jpeg_decodable(jpeg@),
        r is Ok ==> doc_images(r->Ok_0) == doc_images(c).push((jpeg@, x_mm, y_mm)),
        r is Ok ==> doc_page_count(r->Ok_0) == doc_page_count(c) && doc_meta(r->Ok_0) == doc_meta(
            c,
        ),
        r is Err ==> r->Err_0 == PipelineError::Compose,
{
    let cur = Cursor::new(jpeg.as_slice());
    let decoder = printpdf::image_crate::codecs::jpeg::JpegDecoder::new(cur)
        .map_err(|_| PipelineError::Compose)?;
    let img = printpdf::Image::try_from(decoder).map_err(|_| PipelineError::Compose)?;
    let transform = printpdf::ImageTransform {
        translate_x: Some(printpdf::Mm(x_mm.into())),
        translate_y: Some(printpdf::Mm(y_mm.into())),
        ..Default::default()
    };
    img.add_to_layer(c.layer.clone(), transform);
    Ok(c)
}

/// Relies on PdfDocumentReference::save_to_bytes: it writes one page
/// object per page of the document, and serialization into memory
/// cannot fail for documents this module builds (the cursor's layer
/// holds only a weak reference, so the document reference is the one
/// strong one, and every write goes to an in-memory buffer). The bytes
/// embed the creation time and a random document id, so nothing is
/// stated of their value beyond the page count they encode.
#[verifier::external_body]
fn pdf_save(c: PageCursor) -> (r: Vec<u8>)
    ensures
        pdf_page_total(r@) == doc_page_count(c),
{
    c.doc.save_to_bytes().expect("in-memory pdf serialization")
}

/// The placed-image sequence that composing `pages` must produce: each
/// page's bytes at the fixed offset, in order.
pub open spec fn spec_placed(pages: Seq<Seq<u8>>, n: int) -> Seq<PlacedImage> {
    Seq::new(n as nat, |i: int| (pages[i], IMAGE_OFFSET_MM, IMAGE_OFFSET_MM))
}

/// Assembles the document in memory: one page per normalized artifact,
/// in the artifacts' order, each embedded at the fixed offset with no
/// scale or rotation. Succeeds exactly when every artifact decodes as
/// a JPEG; the document then holds exactly the given images in order,
/// one page per image, under the given title with neither an ICC
/// profile nor XMP metadata required.
pub fn build_document(title: &str, pages: &Vec<Vec<u8>>) -> (r: Result<PageCursor, PipelineError>)
    requires
        pages@.len() >= 1,
    ensures
        r is Ok <==> (forall|k: int| 0 <= k < pages@.len() ==> jpeg_decodable(#[trigger] pages@[k]@)),
        r is Ok ==> doc_images(r->Ok_0) == spec_placed(pages.deep_view(), pages@.len() as int),
        r is Ok ==> doc_page_count(r->Ok_0) == pages@.len(),
        r is Ok ==> doc_meta(r->Ok_0) == (title@, false, false),
        r is Err ==> r->Err_0 == PipelineError::Compose,
{
    let cursor0 = pdf_new(title, PAGE_WIDTH_MM, PAGE_HEIGHT_MM, "Layer 1");
    let mut cursor = pdf_with_conformance(cursor0, false, false);
    let mut k: usize = 0;
    while k < pages.len()
        invariant
            1 <= pages@.len(),
            k <= pages@.len(),
            forall|i: int| 0 <= i < k ==> jpeg_decodable(#[trigger] pages@[i]@),
            doc_images(cursor) =~= spec_placed(pages.deep_view(), k as int),
            doc_page_count(cursor) == if k < pages@.len() {
                k as nat + 1
            } else {
                k as nat
            },
            doc_meta(cursor) == (title@, false, false),
        decreases pages@.len() - k,
    {
        let page = &pages[k];
        cursor = match pdf_place_jpeg(cursor, page, IMAGE_OFFSET_MM, IMAGE_OFFSET_MM) {
            Result::Ok(c) => c,
            Result::Err(e) => {
                return Err(e);
            },
        };
        proof {
            assert(pages.deep_view()[k as int] =~= pages@[k as int]@);
            assert(spec_placed(pages.deep_view(), k as int).push(
                (pages.deep_view()[k as int], IMAGE_OFFSET_MM, IMAGE_OFFSET_MM),
            ) =~= spec_placed(pages.deep_view(), k as int + 1));
        }
        if k + 1 < pages.len() {
            cursor = pdf_add_page(cursor, PAGE_WIDTH_MM, PAGE_HEIGHT_MM, "Layer 1");
        }
        k = k + 1;
    }
    Ok(cursor)
}

/// Composes and serializes the output document from the normalized
/// artifacts, in order. A run that found no images fails explicitly
/// with `EmptyDocument` rather than producing a page-less document; an
/// artifact that does not decode as a JPEG fails with `Compose`; on
/// every other input the serialized document is produced, with exactly
/// one page per artifact.
pub fn compose_document(title: &str, pages: &Vec<Vec<u8>>) -> (r: Result<Vec<u8>, PipelineError>)
    ensures
        r is Ok <==> pages@.len() >= 1 && (forall|k: int|
            0 <= k < pages@.len() ==> jpeg_decodable(#[trigger] pages@[k]@)),
        pages@.len() == 0 <==> r == Result::<Vec<u8>, PipelineError>::Err(
            PipelineError::EmptyDocument,
        ),
        r is Ok ==> pdf_page_total(r->Ok_0@) == pages@.len(),
        r is Err ==> r->Err_0 == PipelineError::EmptyDocument || r->Err_0
            == PipelineError::Compose,
{
    if pages.len() == 0 {
        return Err(PipelineError::EmptyDocument);
    }
    let cursor = match build_document(title, pages) {
        Result::Ok(c) => c,
        Result::Err(e) => {
            return Err(e);
        },
    };
    Ok(pdf_save(cursor))
}

} // verus!
