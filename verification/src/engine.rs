//! The trusted boundary to the PDF engine and to rasterized page images.
//!
//! Everything the library learns about a PDF comes through the items here:
//! the engine binding, document loading, page counting, page rasterization,
//! and pixel reads from a rasterized image. Each wrapper's contract states
//! only what the called crate's source shows. An image's pixel grid and its
//! dimensions are given names ([`pixels_of`], [`dims_of`]) so that the
//! verified sampling logic can speak exactly about what it reads.

use vstd::prelude::*;

use image::GenericImageView;
use pdfium_render::prelude::Pdfium;

verus! {

#[verifier::external_type_specification]
#[verifier::external_body]
pub struct ExPdfium(pdfium_render::prelude::Pdfium);

#[verifier::external_type_specification]
#[verifier::external_body]
pub struct ExPdfDocument<'a>(pdfium_render::prelude::PdfDocument<'a>);

#[verifier::external_type_specification]
#[verifier::external_body]
pub struct ExPdfPage<'a>(pdfium_render::prelude::PdfPage<'a>);

#[verifier::external_type_specification]
#[verifier::external_body]
pub struct ExPdfBitmap<'a>(pdfium_render::prelude::PdfBitmap<'a>);

#[verifier::external_type_specification]
#[verifier::external_body]
pub struct ExDynamicImage(image::DynamicImage);

/// The number of pages of a loaded document. A document handle is immutable
/// here, so its page count is a function of the handle alone.
pub uninterp spec fn page_count_of(doc: &pdfium_render::prelude::PdfDocument) -> int;

/// The pixel grid of a rasterized image: the RGB channels at each
/// coordinate. An image value is immutable, so its pixels are a function of
/// the image alone.
pub uninterp spec fn pixels_of(img: &image::DynamicImage) -> Map<(int, int), (u8, u8, u8)>;

/// The width and height of a rasterized image.
pub uninterp spec fn dims_of(img: &image::DynamicImage) -> (int, int);

/// Binds the PDF engine: first from the platform library name under the
/// working directory, else from the system libraries, then initializes the
/// engine with the binding.
///
/// Relies on pdfium_render's `Pdfium::bind_to_library`,
/// `Pdfium::pdfium_platform_library_name_at_path`,
/// `Pdfium::bind_to_system_library` and `Pdfium::new`. These stand in one
/// wrapper because the value between them (the library bindings, a boxed
/// trait object) cannot be named in a verified signature.
#[verifier::external_body]
pub fn engine_new() -> (r: Result<pdfium_render::prelude::Pdfium, String>) {
    Pdfium::bind_to_library(Pdfium::pdfium_platform_library_name_at_path("./"))
        .or_else(|_| Pdfium::bind_to_system_library())
        .map(Pdfium::new)
        .map_err(|e| e.to_string())
}

/// Opens the PDF file at `path`. What comes back depends on the disk, so
/// nothing more is promised than the shape of the result.
///
/// Relies on pdfium_render's `Pdfium::load_pdf_from_file` (no password).
#[verifier::external_body]
pub fn load_document<'a>(
    pdfium: &'a pdfium_render::prelude::Pdfium,
    path: &str,
) -> (r: Result<pdfium_render::prelude::PdfDocument<'a>, String>) {
    pdfium.load_pdf_from_file(path, None).map_err(|e| e.to_string())
}

/// The number of pages of `doc`.
///
/// Relies on pdfium_render's `PdfDocument::pages` (an accessor) and
/// `PdfPages::len`, which returns the engine's page count for the document.
#[verifier::external_body]
pub fn doc_page_count(doc: &pdfium_render::prelude::PdfDocument) -> (n: u16)
    ensures
        n as int == page_count_of(doc),
{
    doc.pages().len()
}

/// The page of `doc` at `index`; an error for an index at or past the page
/// count, and for a page the engine cannot load.
///
/// Relies on pdfium_render's `PdfDocument::pages` (an accessor) and
/// `PdfPages::get`, whose source returns an error for `index >= len` and
/// otherwise loads the page, which can itself fail.
#[verifier::external_body]
pub fn doc_page<'a>(
    doc: &pdfium_render::prelude::PdfDocument<'a>,
    index: u16,
) -> (r: Result<pdfium_render::prelude::PdfPage<'a>, String>)
    ensures
        page_count_of(doc) <= index as int ==> r is Err,
{
    doc.pages().get(index).map_err(|e| e.to_string())
}

/// Rasterizes `page` at the given target width and maximum height.
///
/// Relies on pdfium_render's `PdfPage::render_with_config`; the
/// `PdfRenderConfig` built from the two arguments (via `new`,
/// `set_target_width` and `set_maximum_height`) only converts them into the
/// form that call takes.
#[verifier::external_body]
pub fn render_page<'a, 'b>(
    page: &'b pdfium_render::prelude::PdfPage<'a>,
    target_width: i32,
    max_height: i32,
) -> (r: Result<pdfium_render::prelude::PdfBitmap<'b>, String>) {
    let config = pdfium_render::prelude::PdfRenderConfig::new()
        .set_target_width(target_width)
        .set_maximum_height(max_height);
    page.render_with_config(&config).map_err(|e| e.to_string())
}

/// The rasterized page as an image.
///
/// Relies on pdfium_render's `PdfBitmap::as_image`, which copies the bitmap
/// buffer into an `image::DynamicImage`.
#[verifier::external_body]
pub fn bitmap_image(bitmap: &pdfium_render::prelude::PdfBitmap) -> (img: image::DynamicImage) {
    bitmap.as_image()
}

/// The width of `img`.
///
/// Relies on `DynamicImage::width` of the image crate.
#[verifier::external_body]
pub fn image_width(img: &image::DynamicImage) -> (w: u32)
    ensures
        w as int == dims_of(img).0,
{
    img.width()
}

/// The height of `img`.
///
/// Relies on `DynamicImage::height` of the image crate.
#[verifier::external_body]
pub fn image_height(img: &image::DynamicImage) -> (h: u32)
    ensures
        h as int == dims_of(img).1,
{
    img.height()
}

/// The RGB channels of the pixel of `img` at `(x, y)`.
///
/// Relies on `GenericImageView::get_pixel` of the image crate, which panics
/// out of bounds: the precondition keeps the call inside the image.
#[verifier::external_body]
pub fn image_pixel(img: &image::DynamicImage, x: u32, y: u32) -> (p: (u8, u8, u8))
    requires
        (x as int) < dims_of(img).0,
        (y as int) < dims_of(img).1,
    ensures
        p == pixels_of(img)[(x as int, y as int)],
{
    let px = img.get_pixel(x, y);
    (px.0[0], px.0[1], px.0[2])
}

/// The image as RGBA bytes, row by row: four bytes for each pixel, and
/// possibly spare bytes after them, since an image buffer may have been
/// built over a container larger than its pixel area.
///
/// Relies on `DynamicImage::to_rgba8` and `ImageBuffer::into_raw` of the
/// image crate; a buffer holds at least `width * height * 4` bytes, and
/// `ImageBuffer::from_raw` admits larger containers, which `into_raw`
/// returns whole.
#[verifier::external_body]
pub fn image_rgba_bytes(img: &image::DynamicImage) -> (r: Vec<u8>)
    ensures
        r@.len() >= 4 * dims_of(img).0 * dims_of(img).1,
{
    img.to_rgba8().into_raw()
}

} // verus!
