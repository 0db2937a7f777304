use image::DynamicImage;
use image::Rgba;
use image::RgbaImage;

use pdf_analyzer::analyzer::AnalyzerRegistry;
use pdf_analyzer::analyzer::color_analysis::classify_page_image;

fn uniform_image(w: u32, h: u32, level: u8) -> DynamicImage {
    let mut buf = RgbaImage::new(w, h);
    for y in 0..h {
        for x in 0..w {
            buf.put_pixel(x, y, Rgba([level, level, level, 255]));
        }
    }
    DynamicImage::ImageRgba8(buf)
}

#[test]
fn a_page_of_equal_channels_is_black_and_white() {
    let img = uniform_image(40, 60, 128);
    assert!(!classify_page_image(&img));
}

#[test]
fn one_sampled_pixel_eleven_apart_makes_the_page_color() {
    let mut buf = RgbaImage::new(40, 60, );
    for y in 0..60 {
        for x in 0..40 {
            buf.put_pixel(x, y, Rgba([100, 100, 100, 255]));
        }
    }
    // The origin is always on the sampling grid; 111 - 100 = 11 > 10.
    buf.put_pixel(0, 0, Rgba([100, 111, 100, 255]));
    let img = DynamicImage::ImageRgba8(buf);
    assert!(classify_page_image(&img));
}

#[test]
fn a_difference_of_exactly_ten_stays_black_and_white() {
    let mut buf = RgbaImage::new(40, 60);
    for y in 0..60 {
        for x in 0..40 {
            buf.put_pixel(x, y, Rgba([100, 100, 100, 255]));
        }
    }
    buf.put_pixel(0, 0, Rgba([100, 110, 100, 255]));
    let img = DynamicImage::ImageRgba8(buf);
    assert!(!classify_page_image(&img));
}

#[test]
fn an_unsampled_colored_pixel_does_not_change_the_page() {
    // With a 40 x 60 image the grid strides are 2 and 3; the pixel at
    // (1, 1) is off the grid.
    let mut buf = RgbaImage::new(40, 60);
    for y in 0..60 {
        for x in 0..40 {
            buf.put_pixel(x, y, Rgba([100, 100, 100, 255]));
        }
    }
    buf.put_pixel(1, 1, Rgba([255, 0, 0, 255]));
    let img = DynamicImage::ImageRgba8(buf);
    assert!(!classify_page_image(&img));
}

#[test]
fn an_empty_image_is_black_and_white() {
    let img = DynamicImage::ImageRgba8(RgbaImage::new(0, 0));
    assert!(!classify_page_image(&img));
}

#[test]
fn small_images_sample_every_pixel() {
    // Extents under 20 use a stride of 1: every pixel is sampled.
    let mut buf = RgbaImage::new(5, 5);
    for y in 0..5 {
        for x in 0..5 {
            buf.put_pixel(x, y, Rgba([10, 10, 10, 255]));
        }
    }
    buf.put_pixel(3, 4, Rgba([10, 30, 10, 255]));
    let img = DynamicImage::ImageRgba8(buf);
    assert!(classify_page_image(&img));
}

#[test]
fn default_registry_holds_both_analyzers_in_order() {
    let registry = AnalyzerRegistry::default();
    let analyzers = registry.analyzers();
    assert_eq!(analyzers.len(), 2);
    assert_eq!(analyzers[0].analyzer.id(), "page_count");
    assert_eq!(analyzers[1].analyzer.id(), "color_analysis");
    assert_eq!(analyzers[0].analyzer.name(), "Page Count");
    assert_eq!(analyzers[1].analyzer.name(), "Color Analysis");
    // The cached keys and labels agree with the analyzers' own.
    assert_eq!(analyzers[0].id, "page_count");
    assert_eq!(analyzers[1].id, "color_analysis");
    assert_eq!(analyzers[0].name, "Page Count");
    assert_eq!(analyzers[1].name, "Color Analysis");
}

#[test]
fn built_in_analyzers_declare_no_params() {
    let registry = AnalyzerRegistry::default();
    assert!(registry.all_config_params().is_empty());
}
