use eloran::images::{comic_page_image, cover_from_bytes};
use std::io::Cursor;

fn png_bytes(img: image::DynamicImage) -> Vec<u8> {
    let mut bytes: Vec<u8> = Vec::new();
    img.write_to(&mut Cursor::new(&mut bytes), image::ImageOutputFormat::Png)
        .expect("png encoding");
    bytes
}

fn rgb_png(width: u32, height: u32) -> Vec<u8> {
    png_bytes(image::DynamicImage::ImageRgb8(image::RgbImage::new(width, height)))
}

#[test]
fn covers_are_jpeg_shrunk_to_the_cover_box() {
    let cover = cover_from_bytes(&rgb_png(40, 60)).expect("a cover");
    assert_eq!(&cover[0..2], &[0xFF, 0xD8]);
    let shown = image::load_from_memory(&cover).expect("a jpeg");
    assert!(shown.width() <= 280 && shown.height() <= 430);
    assert!(shown.width() == 280 || shown.height() == 430);
    let square = cover_from_bytes(&rgb_png(1000, 1000)).expect("a cover");
    let shown = image::load_from_memory(&square).expect("a jpeg");
    assert_eq!((shown.width(), shown.height()), (280, 280));
}

#[test]
fn covers_with_alpha_are_stored_as_jpeg() {
    let rgba = png_bytes(image::DynamicImage::ImageRgba8(image::RgbaImage::new(8, 8)));
    let cover = cover_from_bytes(&rgba).expect("a cover");
    assert_eq!(&cover[0..2], &[0xFF, 0xD8]);
}

#[test]
fn undecodable_bytes_give_no_cover() {
    assert!(cover_from_bytes(&vec![1, 2, 3]).is_none());
    assert!(cover_from_bytes(&Vec::new()).is_none());
}

#[test]
fn comic_pages_are_sent_as_jpeg_at_the_size_asked() {
    let page = comic_page_image(&rgb_png(2000, 3000), "800px").expect("a page");
    assert_eq!(&page[0..2], &[0xFF, 0xD8]);
    let shown = image::load_from_memory(&page).expect("a jpeg");
    assert!(shown.width() <= 800 && shown.height() <= 2000);
    assert!(shown.width() == 800 || shown.height() == 2000);
    let page = comic_page_image(&rgb_png(2000, 3000), "1000px").expect("a page");
    let shown = image::load_from_memory(&page).expect("a jpeg");
    assert!(shown.width() == 1000 || shown.height() == 2500);
    let orig = comic_page_image(&rgb_png(30, 20), "orig").expect("a page");
    let shown = image::load_from_memory(&orig).expect("a jpeg");
    assert_eq!((shown.width(), shown.height()), (30, 20));
    assert!(comic_page_image(&vec![0, 1, 2], "800px").is_none());
}
