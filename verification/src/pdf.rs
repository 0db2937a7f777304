//! Loading one PDF: file metadata, page count, and a small first-page
//! thumbnail held as plain pixels.

use vstd::prelude::*;
use vstd::string::StrSliceExecFns;
use vstd::string::StringExecFns;

use pdfium_render::prelude::PdfDocument;
use pdfium_render::prelude::Pdfium;

use crate::engine::bitmap_image;
use crate::engine::dims_of;
use crate::engine::doc_page;
use crate::engine::doc_page_count;
use crate::engine::engine_new;
use crate::engine::image_height;
use crate::engine::image_rgba_bytes;
use crate::engine::image_width;
use crate::engine::load_document;
use crate::engine::render_page;
use crate::error::AppError;
use crate::error::AppResult;
use crate::text::str_eq;

pub mod service;

verus! {

/// Whether `c` separates path components.
pub open spec fn is_separator(c: char) -> bool {
    c == '/' || c == '\\'
}

/// The characters after the last path separator of `s`.
pub open spec fn base_name(s: Seq<char>) -> Seq<char>
    decreases s.len(),
{
    if s.len() == 0 {
        s
    } else if is_separator(s.last()) {
        Seq::empty()
    } else {
        base_name(s.drop_last()).push(s.last())
    }
}

/// `s` with trailing separators and trailing current-directory (`.`)
/// components removed, one character at a time: such a tail never names
/// the file.
pub open spec fn strip_dots(s: Seq<char>) -> Seq<char>
    decreases s.len(),
{
    if s.len() == 0 {
        s
    } else if is_separator(s.last()) {
        strip_dots(s.drop_last())
    } else if s.last() == '.' && (s.len() == 1 || is_separator(s[s.len() - 2])) {
        strip_dots(s.drop_last())
    } else {
        s
    }
}

/// The display name of the file at `path`: the last path component, with
/// trailing separators and current-directory components ignored. A path
/// with no component left, or one ending in a parent-directory component,
/// has no file name: `Unknown`.
pub open spec fn display_name(path: Seq<char>) -> Seq<char> {
    let base = base_name(strip_dots(path));
    if base.len() == 0 || base == ".."@ {
        "Unknown"@
    } else {
        base
    }
}

proof fn lemma_base_name_suffix(s: Seq<char>, cut: int)
    requires
        0 <= cut <= s.len(),
        forall|k: int| cut <= k < s.len() ==> !is_separator(s[k]),
        cut > 0 ==> is_separator(s[cut - 1]),
    ensures
        base_name(s) == s.subrange(cut, s.len() as int),
    decreases s.len(),
{
    if cut == s.len() {
        if s.len() == 0 {
            assert(s.subrange(0, 0) =~= s);
        } else {
            assert(is_separator(s[s.len() - 1]));
            assert(s.subrange(cut, s.len() as int) =~= Seq::<char>::empty());
        }
    } else {
        assert(!is_separator(s.last()));
        lemma_base_name_suffix(s.drop_last(), cut);
        assert(s.drop_last().subrange(cut, s.len() - 1) =~= s.subrange(cut, s.len() - 1));
        assert(s.subrange(cut, s.len() - 1).push(s.last()) =~= s.subrange(cut, s.len() as int));
    }
}

/// The display name of the file at `path`, exactly [`display_name`].
pub fn file_name_of(path: &str) -> (r: String)
    ensures
        r@ == display_name(path@),
{
    let n = path.unicode_len();
    let mut end: usize = n;
    let mut done = false;
    proof {
        assert(path@.take(n as int) =~= path@);
    }
    while !done && end > 0
        invariant
            n == path@.len(),
            end <= n,
            strip_dots(path@) == strip_dots(path@.take(end as int)),
            done ==> end > 0 && !is_separator(path@[end - 1]) && !(path@[end - 1] == '.' && (end
                == 1 || is_separator(path@[end - 2]))),
        decreases end + (if done {
            0int
        } else {
            1int
        }),
    {
        let c = path.get_char(end - 1);
        let peel = if c == '/' || c == '\\' {
            true
        } else if c == '.' {
            if end == 1 {
                true
            } else {
                let p = path.get_char(end - 2);
                p == '/' || p == '\\'
            }
        } else {
            false
        };
        if peel {
            proof {
                assert(path@.take(end as int).last() == path@[end - 1]);
                assert(path@.take(end as int).drop_last() =~= path@.take(end as int - 1));
                if end >= 2 {
                    assert(path@.take(end as int)[end - 2] == path@[end - 2]);
                }
            }
            end = end - 1;
        } else {
            done = true;
        }
    }
    proof {
        if end == 0 {
            assert(path@.take(0) =~= Seq::<char>::empty());
            assert(strip_dots(path@) =~= Seq::<char>::empty());
        } else {
            assert(path@.take(end as int).last() == path@[end - 1]);
            assert(strip_dots(path@.take(end as int)) == path@.take(end as int));
        }
    }
    let mut cut: usize = 0;
    let mut k: usize = 0;
    while k < end
        invariant
            n == path@.len(),
            end <= n,
            k <= end,
            cut <= k,
            forall|t: int| cut <= t < k ==> !is_separator(path@[t]),
            cut > 0 ==> is_separator(path@[cut - 1]),
        decreases end - k,
    {
        let c = path.get_char(k);
        if c == '/' || c == '\\' {
            cut = k + 1;
        }
        k = k + 1;
    }
    proof {
        lemma_base_name_suffix(path@.take(end as int), cut as int);
        assert(path@.take(end as int).subrange(cut as int, end as int) =~= path@.subrange(
            cut as int,
            end as int,
        ));
        assert(forall|t: int| cut <= t < end ==> path@.take(end as int)[t] == path@[t]);
    }
    let base = path.substring_char(cut, end);
    if base.unicode_len() == 0 {
        let r = String::from_str("Unknown");
        r
    } else if str_eq(base, "..") {
        let r = String::from_str("Unknown");
        r
    } else {
        base.to_owned()
    }
}

/// A small rendering of a page, held as plain pixels: tightly packed RGBA
/// bytes, four per pixel, row by row.
#[derive(Debug, Clone)]
pub struct Thumbnail {
    pub width: u32,
    pub height: u32,
    pub rgba: Vec<u8>,
}

impl Thumbnail {
    /// The byte buffer holds exactly its `width x height` RGBA pixels.
    pub open spec fn wf(self) -> bool {
        self.rgba.len() == 4 * self.width as int * self.height as int
    }
}

/// One loaded PDF: where it lives, its display name, its page count, and a
/// first-page thumbnail when one could be rendered.
#[derive(Debug, Clone)]
pub struct PdfFile {
    pub path: String,
    pub filename: String,
    pub page_count: usize,
    pub thumbnail: Option<Thumbnail>,
}

impl PdfFile {
    /// Any thumbnail carried is well-formed.
    pub open spec fn wf(self) -> bool {
        match self.thumbnail {
            Some(t) => t.wf(),
            None => true,
        }
    }

    /// Loads the document at `path` and reads its metadata: the display
    /// name, the page count, and a thumbnail of the first page. A document
    /// that cannot be loaded is this file's error; a thumbnail that cannot
    /// be rendered is simply absent.
    pub fn load(path: &str, pdfium: &Pdfium) -> (r: AppResult<PdfFile>)
        ensures
            (r matches Ok(f) ==> f.wf() && f.path@ == path@ && f.filename@ == display_name(path@)),
            (r matches Err(e) ==> e is PdfLoad),
    {
        let filename = file_name_of(path);
        let document = match load_document(pdfium, path) {
            Ok(d) => d,
            Err(reason) => {
                return Err(AppError::PdfLoad { path: path.to_owned(), reason });
            },
        };
        let page_count = doc_page_count(&document) as usize;
        let thumbnail = match Self::generate_thumbnail(&document, 0) {
            Ok(t) => Some(t),
            Err(_) => None,
        };
        Ok(PdfFile { path: path.to_owned(), filename, page_count, thumbnail })
    }

    /// Renders the page at `page_index` at thumbnail size. The pixels come
    /// from the engine; their number is pinned by the thumbnail's own
    /// invariant.
    fn generate_thumbnail(document: &PdfDocument, page_index: u16) -> (r: AppResult<Thumbnail>)
        ensures
            r matches Ok(t) ==> t.wf(),
    {
        let page = match doc_page(document, page_index) {
            Ok(p) => p,
            Err(reason) => {
                return Err(AppError::RenderError { page: page_index as usize, reason });
            },
        };
        let bitmap = match render_page(&page, 150, 200) {
            Ok(b) => b,
            Err(reason) => {
                return Err(AppError::RenderError { page: page_index as usize, reason });
            },
        };
        let img = bitmap_image(&bitmap);
        let width = image_width(&img);
        let height = image_height(&img);
        let mut rgba = image_rgba_bytes(&img);
        let cap = rgba.len();
        proof {
            assert(4 * dims_of(&img).0 * dims_of(&img).1 <= cap as int);
            assert(4 * (width as int) * (height as int) <= cap as int);
        }
        let exact = 4 * (width as u64) * (height as u64);
        rgba.truncate(exact as usize);
        Ok(Thumbnail { width, height, rgba })
    }
}

/// A direct, single-threaded holder of the engine, for callers that do not
/// need the worker service.
pub struct PdfProcessor {
    pdfium: Pdfium,
}

impl PdfProcessor {
    /// Binds the engine in the calling thread. An engine that cannot be
    /// bound is a startup-fatal error surfaced to the caller, not retried.
    pub fn new() -> (r: AppResult<PdfProcessor>)
        ensures
            r matches Err(e) ==> e is PdfLoad,
    {
        match engine_new() {
            Ok(pdfium) => Ok(PdfProcessor { pdfium }),
            Err(reason) => Err(
                AppError::PdfLoad { path: String::from_str("pdfium library"), reason },
            ),
        }
    }

    /// Loads one PDF with this processor's engine.
    pub fn load_pdf(&self, path: &str) -> (r: AppResult<PdfFile>)
        ensures
            (r matches Ok(f) ==> f.wf() && f.path@ == path@ && f.filename@ == display_name(path@)),
            (r matches Err(e) ==> e is PdfLoad),
    {
        PdfFile::load(path, &self.pdfium)
    }

    /// The engine this processor owns.
    pub fn pdfium(&self) -> &Pdfium {
        &self.pdfium
    }
}

} // verus!
