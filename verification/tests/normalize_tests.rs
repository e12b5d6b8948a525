use photo_book::errors::PipelineError;
use photo_book::normalize::normalize_corpus;
use photo_book::normalize::normalize_image;

fn png_of(img: image::RgbImage) -> Vec<u8> {
    let mut out = std::io::Cursor::new(Vec::new());
    img.write_to(&mut out, image::ImageOutputFormat::Png).unwrap();
    out.into_inner()
}

fn solid_png(w: u32, h: u32, px: [u8; 3]) -> Vec<u8> {
    png_of(image::RgbImage::from_pixel(w, h, image::Rgb(px)))
}

fn normalized_gray(src: &[u8]) -> image::GrayImage {
    let jpeg = normalize_image(&src.to_vec()).unwrap();
    image::load_from_memory(&jpeg).unwrap().to_luma8()
}

#[test]
fn normalized_dimensions_are_fixed() {
    let out = normalized_gray(&solid_png(321, 457, [200, 10, 10]));
    assert_eq!(out.dimensions(), (1275, 1650));
}

#[test]
fn landscape_red_normalizes_to_portrait() {
    let out = normalized_gray(&solid_png(200, 100, [255, 0, 0]));
    assert_eq!(out.width(), 1275);
    assert_eq!(out.height(), 1650);
}

#[test]
fn portrait_blue_normalizes_to_portrait() {
    let out = normalized_gray(&solid_png(100, 200, [0, 0, 255]));
    assert_eq!(out.width(), 1275);
    assert_eq!(out.height(), 1650);
}

#[test]
fn square_source_keeps_fixed_size() {
    let out = normalized_gray(&solid_png(150, 150, [9, 180, 40]));
    assert_eq!(out.dimensions(), (1275, 1650));
}

#[test]
fn landscape_right_edge_rotates_to_top() {
    // Left half white, right half black: the quarter turn
    // counter-clockwise must bring the black right edge to the top.
    let img = image::RgbImage::from_fn(100, 50, |x, _y| {
        if x < 50 {
            image::Rgb([255, 255, 255])
        } else {
            image::Rgb([0, 0, 0])
        }
    });
    let out = normalized_gray(&png_of(img));
    let top = out.get_pixel(637, 100).0[0];
    let bottom = out.get_pixel(637, 1550).0[0];
    assert!(top < 64, "top of rotated page should be dark, was {}", top);
    assert!(bottom > 192, "bottom of rotated page should be light, was {}", bottom);
}

#[test]
fn portrait_is_not_rotated() {
    // Top half white, bottom half black, already portrait: the page
    // must keep that vertical split.
    let img = image::RgbImage::from_fn(50, 100, |_x, y| {
        if y < 50 {
            image::Rgb([255, 255, 255])
        } else {
            image::Rgb([0, 0, 0])
        }
    });
    let out = normalized_gray(&png_of(img));
    let top = out.get_pixel(637, 100).0[0];
    let bottom = out.get_pixel(637, 1550).0[0];
    assert!(top > 192, "top of page should stay light, was {}", top);
    assert!(bottom < 64, "bottom of page should stay dark, was {}", bottom);
}

#[test]
fn grayscale_uses_luminance() {
    // Pure red converts to its luminance, far from both black and
    // full brightness.
    let out = normalized_gray(&solid_png(64, 96, [255, 0, 0]));
    let v = out.get_pixel(600, 800).0[0];
    assert!(v > 30 && v < 90, "red luminance expected near 54, was {}", v);
}

#[test]
fn corpus_normalizes_every_image_in_order() {
    let images = vec![solid_png(200, 100, [255, 0, 0]), solid_png(100, 200, [0, 0, 255])];
    let pages = normalize_corpus(&images).unwrap();
    assert_eq!(pages.len(), 2);
    for page in &pages {
        let out = image::load_from_memory(page).unwrap().to_luma8();
        assert_eq!(out.dimensions(), (1275, 1650));
    }
    assert_eq!(pages[0], normalize_image(&images[0]).unwrap());
    assert_eq!(pages[1], normalize_image(&images[1]).unwrap());
}

#[test]
fn corpus_fails_on_one_undecodable_image() {
    let images = vec![solid_png(60, 60, [7, 7, 7]), vec![9, 9, 9, 9]];
    assert_eq!(normalize_corpus(&images), Err(PipelineError::Decode));
}

#[test]
fn undecodable_bytes_fail_with_decode() {
    let garbage: Vec<u8> = vec![1, 2, 3, 4, 5, 6, 7, 8];
    assert_eq!(normalize_image(&garbage), Err(PipelineError::Decode));
}
