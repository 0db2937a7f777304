//! The color analyzer: classifies every page of a document as color or
//! black & white by sampling a fixed grid of pixels from a small rendering.
//!
//! A page counts as color exactly when some sampled pixel's largest pairwise
//! difference among its R, G and B channels exceeds a tolerance of 10, which
//! absorbs compression artifacts. A page that fails to rasterize is counted
//! as black & white, never dropped and never an error for the file.

use vstd::prelude::*;

use image::DynamicImage;
use pdfium_render::prelude::PdfDocument;
use pdfium_render::prelude::PdfPage;

use crate::analyzer::AnalysisResult;
use crate::analyzer::Analyzer;
use crate::config::Config;
use crate::config::ConfigParam;
use crate::config::ConfigV;
use crate::config::ConfigValueV;
use crate::config::ParamV;
use crate::config::params_view;
use crate::engine::bitmap_image;
use crate::engine::dims_of;
use crate::engine::doc_page;
use crate::engine::doc_page_count;
use crate::engine::image_height;
use crate::engine::image_pixel;
use crate::engine::image_width;
use crate::engine::page_count_of;
use crate::engine::pixels_of;
use crate::engine::render_page;
use crate::error::AppError;
use crate::error::AppResult;

verus! {

/// The distance between two channel values.
pub open spec fn channel_diff(a: u8, b: u8) -> int {
    if a >= b {
        a - b
    } else {
        b - a
    }
}

/// The largest pairwise difference among the three channels of `p`.
pub open spec fn max_channel_diff(p: (u8, u8, u8)) -> int {
    let rg = channel_diff(p.0, p.1);
    let rb = channel_diff(p.0, p.2);
    let gb = channel_diff(p.1, p.2);
    if rg >= rb && rg >= gb {
        rg
    } else if rb >= gb {
        rb
    } else {
        gb
    }
}

/// Whether one pixel counts as colored: its channels differ by more than the
/// tolerance of 10.
pub open spec fn pixel_is_color(p: (u8, u8, u8)) -> bool {
    max_channel_diff(p) > 10
}

/// The sampling stride along an axis of extent `extent`: about 20 sample
/// points per axis, with a minimum stride of 1.
pub open spec fn grid_step(extent: int) -> int {
    if extent / 20 >= 1 {
        extent / 20
    } else {
        1
    }
}

/// Whether a `w x h` pixel grid counts as color: some pixel on the sampling
/// grid is colored.
pub open spec fn page_image_is_color(pix: Map<(int, int), (u8, u8, u8)>, w: int, h: int) -> bool {
    exists|i: int, j: int|
        0 <= i && 0 <= j && i * grid_step(w) < w && j * grid_step(h) < h && pixel_is_color(
            #[trigger] pix[(i * grid_step(w), j * grid_step(h))],
        )
}

/// A grid whose sampled pixels all have equal channels everywhere is
/// classified black & white.
pub proof fn lemma_uniform_image_is_bw(pix: Map<(int, int), (u8, u8, u8)>, w: int, h: int)
    requires
        forall|q: (int, int)| {
            let p = #[trigger] pix[q];
            p.0 == p.1 && p.1 == p.2
        },
    ensures
        !page_image_is_color(pix, w, h),
{
    assert forall|i: int, j: int|
        0 <= i && 0 <= j && i * grid_step(w) < w && j * grid_step(h) < h implies !pixel_is_color(
        #[trigger] pix[(i * grid_step(w), j * grid_step(h))],
    ) by {
        let p = pix[(i * grid_step(w), j * grid_step(h))];
        assert(max_channel_diff(p) == 0);
    }
}

/// One sampled pixel over the tolerance makes the whole page color: the
/// sample at grid indices `(i, j)` decides by itself.
pub proof fn lemma_sample_over_tolerance_is_color(
    pix: Map<(int, int), (u8, u8, u8)>,
    w: int,
    h: int,
    i: int,
    j: int,
)
    requires
        0 <= i,
        0 <= j,
        i * grid_step(w) < w,
        j * grid_step(h) < h,
        max_channel_diff(pix[(i * grid_step(w), j * grid_step(h))]) > 10,
    ensures
        page_image_is_color(pix, w, h),
{
}

/// True exactly when the three channels differ by more than the tolerance.
fn pixel_colored(p: (u8, u8, u8)) -> (r: bool)
    ensures
        r == pixel_is_color(p),
{
    let rg = if p.0 >= p.1 {
        p.0 - p.1
    } else {
        p.1 - p.0
    };
    let rb = if p.0 >= p.2 {
        p.0 - p.2
    } else {
        p.2 - p.0
    };
    let gb = if p.1 >= p.2 {
        p.1 - p.2
    } else {
        p.2 - p.1
    };
    let m = if rg >= rb && rg >= gb {
        rg
    } else if rb >= gb {
        rb
    } else {
        gb
    };
    m > 10
}

/// Classifies one rasterized page image: walks the sampling grid and reports
/// whether any sampled pixel is colored.
pub fn classify_page_image(img: &DynamicImage) -> (color: bool)
    ensures
        color == page_image_is_color(pixels_of(img), dims_of(img).0, dims_of(img).1),
{
    let w = image_width(img);
    let h = image_height(img);
    let ghost wi = dims_of(img).0;
    let ghost hi = dims_of(img).1;
    let ghost pix = pixels_of(img);
    if w == 0 || h == 0 {
        proof {
            assert forall|i: int, j: int|
                0 <= i && 0 <= j && i * grid_step(wi) < wi && j * grid_step(hi) < hi
                implies !pixel_is_color(
                #[trigger] pix[(i * grid_step(wi), j * grid_step(hi))],
            ) by {
                assert(i * grid_step(wi) >= 0) by (nonlinear_arith)
                    requires
                        i >= 0,
                        grid_step(wi) >= 1,
                ;
                assert(j * grid_step(hi) >= 0) by (nonlinear_arith)
                    requires
                        j >= 0,
                        grid_step(hi) >= 1,
                ;
            }
        }
        return false;
    }
    let w64 = w as u64;
    let h64 = h as u64;
    let sx: u64 = if w64 / 20 >= 1 {
        w64 / 20
    } else {
        1
    };
    let sy: u64 = if h64 / 20 >= 1 {
        h64 / 20
    } else {
        1
    };
    let ghost sxi = grid_step(wi);
    let ghost syi = grid_step(hi);
    let mut y: u64 = 0;
    let ghost mut j: int = 0int;
    let mut found = false;
    proof {
        assert(0int * syi == 0) by (nonlinear_arith);
        assert(0int * sxi == 0) by (nonlinear_arith);
    }
    while y < h64 && !found
        invariant
            wi == dims_of(img).0,
            hi == dims_of(img).1,
            pix == pixels_of(img),
            w as int == wi,
            h as int == hi,
            w64 == w as u64,
            h64 == h as u64,
            1 <= w64 < 0x1_0000_0000,
            1 <= h64 < 0x1_0000_0000,
            sx as int == sxi,
            sy as int == syi,
            sxi == grid_step(wi),
            syi == grid_step(hi),
            1 <= sx <= w64,
            1 <= sy <= h64,
            j >= 0,
            y as int == j * syi,
            y < h64 + sy,
            found ==> page_image_is_color(pix, wi, hi),
            !found ==> forall|i2: int, j2: int|
                0 <= i2 && 0 <= j2 && i2 * grid_step(wi) < wi && j2 * grid_step(hi) < y as int
                    ==> !pixel_is_color(#[trigger] pix[(i2 * grid_step(wi), j2 * grid_step(hi))]),
        decreases h64 + sy - y, (if found { 0int } else { 1int }),
    {
        let mut x: u64 = 0;
        let ghost mut i: int = 0int;
        proof {
            assert(0int * sxi == 0) by (nonlinear_arith);
        }
        while x < w64 && !found
            invariant
                wi == dims_of(img).0,
                hi == dims_of(img).1,
                pix == pixels_of(img),
                w as int == wi,
                h as int == hi,
                w64 == w as u64,
                h64 == h as u64,
                1 <= w64 < 0x1_0000_0000,
                1 <= h64 < 0x1_0000_0000,
                sx as int == sxi,
                sy as int == syi,
                sxi == grid_step(wi),
                syi == grid_step(hi),
                1 <= sx <= w64,
                1 <= sy <= h64,
                i >= 0,
                j >= 0,
                x as int == i * sxi,
                x < w64 + sx,
                y as int == j * syi,
                y < h64,
                found ==> page_image_is_color(pix, wi, hi),
                !found ==> forall|i2: int, j2: int|
                    0 <= i2 && 0 <= j2 && i2 * grid_step(wi) < wi && j2 * grid_step(hi) < y as int
                        ==> !pixel_is_color(
                        #[trigger] pix[(i2 * grid_step(wi), j2 * grid_step(hi))],
                    ),
                !found ==> forall|i2: int|
                    0 <= i2 && i2 * grid_step(wi) < x as int ==> !pixel_is_color(
                        #[trigger] pix[(i2 * grid_step(wi), j * grid_step(hi))],
                    ),
            decreases w64 + sx - x, (if found { 0int } else { 1int }),
        {
            proof {
                assert(x < w64);
                assert(y < h64);
                assert(x as u32 as int == x as int);
                assert(y as u32 as int == y as int);
            }
            let p = image_pixel(img, x as u32, y as u32);
            proof {
                assert(p == pix[(i * sxi, j * syi)]);
            }
            if pixel_colored(p) {
                proof {
                    lemma_sample_over_tolerance_is_color(pix, wi, hi, i, j);
                }
                found = true;
            } else {
                proof {
                    assert forall|i2: int|
                        0 <= i2 && i2 * grid_step(wi) < x as int + sxi implies !pixel_is_color(
                        #[trigger] pix[(i2 * grid_step(wi), j * grid_step(hi))],
                    ) by {
                        if i2 * grid_step(wi) < x as int {
                        } else {
                            assert(i2 * sxi >= i * sxi && i2 * sxi < i * sxi + sxi);
                            assert(i2 == i) by (nonlinear_arith)
                                requires
                                    sxi >= 1,
                                    i2 * sxi >= i * sxi,
                                    i2 * sxi < i * sxi + sxi,
                            ;
                            assert(pix[(i2 * grid_step(wi), j * grid_step(hi))] == p);
                        }
                    }
                    assert((i + 1) * sxi == i * sxi + sxi) by (nonlinear_arith);
                }
                x = x + sx;
                proof {
                    i = i + 1;
                }
            }
        }
        if !found {
            proof {
                assert(x >= w64);
                assert forall|i2: int, j2: int|
                    0 <= i2 && 0 <= j2 && i2 * grid_step(wi) < wi && j2 * grid_step(hi) < y as int
                        + syi implies !pixel_is_color(
                    #[trigger] pix[(i2 * grid_step(wi), j2 * grid_step(hi))],
                ) by {
                    if j2 * grid_step(hi) < y as int {
                    } else {
                        assert(j2 * syi >= j * syi && j2 * syi < j * syi + syi);
                        assert(j2 == j) by (nonlinear_arith)
                            requires
                                syi >= 1,
                                j2 * syi >= j * syi,
                                j2 * syi < j * syi + syi,
                        ;
                        assert(i2 * grid_step(wi) < x as int);
                    }
                }
                assert((j + 1) * syi == j * syi + syi) by (nonlinear_arith);
            }
            y = y + sy;
            proof {
                j = j + 1;
            }
        }
    }
    proof {
        if !found {
            assert forall|i2: int, j2: int|
                0 <= i2 && 0 <= j2 && i2 * grid_step(wi) < wi && j2 * grid_step(hi) < hi
                implies !pixel_is_color(
                #[trigger] pix[(i2 * grid_step(wi), j2 * grid_step(hi))],
            ) by {
                assert(j2 * grid_step(hi) < y as int);
            }
        }
    }
    found
}

pub struct ColorAnalysisAnalyzer;

impl ColorAnalysisAnalyzer {
    /// Rasterizes one page at a bounded small resolution and classifies it.
    /// What classification comes back depends on the rendering; the
    /// classification itself is [`classify_page_image`].
    fn is_page_color(page: &PdfPage) -> (r: AppResult<bool>)
        ensures
            r matches Err(e) ==> e is RenderError,
    {
        let bitmap = match render_page(page, 200, 300) {
            Ok(b) => b,
            Err(reason) => {
                return Err(AppError::RenderError { page: 0, reason });
            },
        };
        let img = bitmap_image(&bitmap);
        Ok(classify_page_image(&img))
    }

    /// Walks every page of `document` and counts black & white and color
    /// pages. Every page lands in exactly one of the two counts; a page
    /// that cannot be loaded or rasterized counts as black & white.
    pub fn count_pages(document: &PdfDocument) -> (counts: (usize, usize))
        ensures
            counts.0 + counts.1 == page_count_of(document),
    {
        let n = doc_page_count(document);
        let mut bw_pages: usize = 0;
        let mut color_pages: usize = 0;
        let mut idx: u16 = 0;
        while idx < n
            invariant
                n as int == page_count_of(document),
                idx <= n,
                bw_pages + color_pages == idx as int,
            decreases n - idx,
        {
            match doc_page(document, idx) {
                Ok(page) => {
                    match Self::is_page_color(&page) {
                        Ok(true) => {
                            color_pages = color_pages + 1;
                        },
                        Ok(false) => {
                            bw_pages = bw_pages + 1;
                        },
                        Err(_) => {
                            bw_pages = bw_pages + 1;
                        },
                    }
                },
                Err(_) => {
                    bw_pages = bw_pages + 1;
                },
            }
            idx = idx + 1;
        }
        (bw_pages, color_pages)
    }
}

impl Analyzer for ColorAnalysisAnalyzer {
    open spec fn spec_id(&self) -> Seq<char> {
        "color_analysis"@
    }

    open spec fn spec_name(&self) -> Seq<char> {
        "Color Analysis"@
    }

    open spec fn valid_result(&self, result: AnalysisResult) -> bool {
        result is ColorAnalysis
    }

    open spec fn spec_params(&self) -> Seq<ParamV> {
        Seq::empty()
    }

    open spec fn spec_config_state(&self) -> Seq<ConfigValueV> {
        Seq::empty()
    }

    open spec fn spec_configured(&self, config: ConfigV) -> Seq<ConfigValueV> {
        Seq::empty()
    }

    fn id(&self) -> (r: &'static str)
        ensures
            r@ == self.spec_id(),
    {
        "color_analysis"
    }

    fn name(&self) -> (r: &'static str)
        ensures
            r@ == self.spec_name(),
    {
        "Color Analysis"
    }

    /// Always succeeds: every page lands in exactly one of the two counts,
    /// so the counts sum to the document's page count. A page that fails to
    /// rasterize is counted black & white, never an error.
    fn analyze(&self, document: &PdfDocument, _path: &str) -> (r: AppResult<AnalysisResult>)
        ensures
            r matches Ok(a) && a matches AnalysisResult::ColorAnalysis { bw_pages, color_pages }
                && bw_pages + color_pages == page_count_of(document),
    {
        let counts = Self::count_pages(document);
        Ok(AnalysisResult::ColorAnalysis { bw_pages: counts.0, color_pages: counts.1 })
    }

    fn config_params(&self) -> (r: Vec<ConfigParam>)
        ensures
            params_view(r@) == self.spec_params(),
    {
        let r: Vec<ConfigParam> = Vec::new();
        proof {
            assert(params_view(r@) =~= Seq::<ParamV>::empty());
        }
        r
    }

    fn apply_config(&mut self, _config: &Config)
        ensures
            final(self).spec_config_state() == old(self).spec_configured(_config@),
    {
    }
}

} // verus!
