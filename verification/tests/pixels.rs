use roi_editor::media::image_data_url;
use roi_editor::pixels::{
    image_size, index_of, is_samplable, load_raster, payload_of_checked, sample_decoded,
    sample_from_url, size_or_zero, Raster, Rgba, Sample, SampleError,
};
use roi_editor::roi::ROI;

fn roi(x: i32, y: i32, width: i32, height: i32) -> ROI {
    ROI { x, y, width, height }
}

fn two_by_two() -> Raster {
    Raster::from_parts(2, 2, (1u8..=16).collect()).unwrap()
}

fn sample(x: i32, y: i32, first: u8) -> Sample {
    Sample { x, y, rgba: Rgba { r: first, g: first + 1, b: first + 2, a: first + 3 } }
}

fn png_of(width: u32, height: u32, data: Vec<u8>) -> Vec<u8> {
    let img = image::RgbaImage::from_raw(width, height, data).unwrap();
    let mut out = std::io::Cursor::new(Vec::new());
    image::DynamicImage::ImageRgba8(img).write_to(&mut out, image::ImageFormat::Png).unwrap();
    out.into_inner()
}

#[test]
fn raster_needs_four_bytes_for_each_pixel() {
    assert!(Raster::from_parts(2, 2, vec![0; 16]).is_some());
    assert!(Raster::from_parts(0, 0, Vec::new()).is_some());
    assert!(Raster::from_parts(0, 7, Vec::new()).is_some());
    assert!(Raster::from_parts(2, 2, vec![0; 15]).is_none());
    assert!(Raster::from_parts(2, 2, vec![0; 17]).is_none());
    assert!(Raster::from_parts(u32::MAX, u32::MAX, vec![0; 4]).is_none());
    let raster = Raster::from_parts(3, 1, vec![9; 12]).unwrap();
    assert_eq!((raster.width, raster.height, raster.data.len()), (3, 1, 12));
}

#[test]
fn pixels_are_read_row_by_row() {
    let raster = two_by_two();
    assert_eq!(raster.get_pixel_checked(0, 0), Some(Rgba { r: 1, g: 2, b: 3, a: 4 }));
    assert_eq!(raster.get_pixel_checked(1, 0), Some(Rgba { r: 5, g: 6, b: 7, a: 8 }));
    assert_eq!(raster.get_pixel_checked(0, 1), Some(Rgba { r: 9, g: 10, b: 11, a: 12 }));
    assert_eq!(raster.get_pixel_checked(1, 1), Some(Rgba { r: 13, g: 14, b: 15, a: 16 }));
}

#[test]
fn no_pixel_outside_the_image() {
    let raster = two_by_two();
    assert_eq!(raster.get_pixel_checked(2, 0), None);
    assert_eq!(raster.get_pixel_checked(0, 2), None);
    assert_eq!(raster.get_pixel_checked(u32::MAX, u32::MAX), None);
    let empty = Raster::from_parts(0, 0, Vec::new()).unwrap();
    assert_eq!(empty.get_pixel_checked(0, 0), None);
}

#[test]
fn negative_coordinates_become_large_indices() {
    assert_eq!(index_of(0), 0);
    assert_eq!(index_of(7), 7);
    assert_eq!(index_of(i32::MAX), 2147483647);
    assert_eq!(index_of(-1), u32::MAX);
    assert_eq!(index_of(i32::MIN), 2147483648);
}

#[test]
fn region_inside_the_image_is_sampled_whole() {
    let raster = two_by_two();
    assert_eq!(
        raster.sample_region(&roi(0, 0, 2, 2)),
        vec![sample(0, 0, 1), sample(1, 0, 5), sample(0, 1, 9), sample(1, 1, 13)]
    );
    assert_eq!(raster.sample_region(&roi(1, 0, 1, 2)), vec![sample(1, 0, 5), sample(1, 1, 13)]);
}

#[test]
fn positions_outside_the_image_are_passed_over() {
    let raster = two_by_two();
    assert_eq!(
        raster.sample_region(&roi(-1, -1, 3, 3)),
        vec![sample(0, 0, 1), sample(1, 0, 5), sample(0, 1, 9), sample(1, 1, 13)]
    );
    assert_eq!(raster.sample_region(&roi(1, 1, 5, 5)), vec![sample(1, 1, 13)]);
    assert_eq!(raster.sample_region(&roi(2, 0, 4, 4)), Vec::new());
    assert_eq!(raster.sample_region(&roi(-8, -8, 8, 8)), Vec::new());
}

#[test]
fn empty_regions_have_no_samples() {
    let raster = two_by_two();
    assert_eq!(raster.sample_region(&roi(0, 0, 0, 2)), Vec::new());
    assert_eq!(raster.sample_region(&roi(0, 0, 2, 0)), Vec::new());
    assert_eq!(raster.sample_region(&roi(0, 0, -3, 2)), Vec::new());
    assert_eq!(raster.sample_region(&roi(0, 0, 2, -3)), Vec::new());
}

#[test]
fn image_bytes_are_decoded_to_rgba() {
    let data: Vec<u8> = vec![255, 0, 0, 255, 0, 255, 0, 255, 0, 0, 255, 128, 10, 20, 30, 40, 1, 2, 3, 4, 5, 6, 7, 8];
    let raster = load_raster(&png_of(3, 2, data.clone())).unwrap();
    assert_eq!(raster.width, 3);
    assert_eq!(raster.height, 2);
    assert_eq!(raster.data, data);
    assert_eq!(raster.get_pixel_checked(2, 0), Some(Rgba { r: 0, g: 0, b: 255, a: 128 }));
    assert_eq!(raster.get_pixel_checked(0, 1), Some(Rgba { r: 10, g: 20, b: 30, a: 40 }));
}

#[test]
fn bytes_that_are_no_image_are_not_decoded() {
    assert!(load_raster(b"hello").is_none());
    assert!(load_raster(&[]).is_none());
}

#[test]
fn samples_are_read_from_a_data_url() {
    let png = png_of(2, 2, (1u8..=16).collect());
    let url = image_data_url(Some("png"), &png);
    assert_eq!(
        sample_from_url(&url, &roi(1, 0, 4, 2)),
        Ok(vec![sample(1, 0, 5), sample(1, 1, 13)])
    );
    assert_eq!(sample_from_url(&url, &roi(5, 5, 2, 2)), Ok(Vec::new()));
}

#[test]
fn each_failed_step_has_its_error() {
    let region = roi(0, 0, 1, 1);
    assert_eq!(sample_from_url("no payload here", &region), Err(SampleError::NoPayload));
    assert_eq!(sample_from_url("data:image/png;base64,@@@@", &region), Err(SampleError::BadBase64));
    assert_eq!(sample_from_url("data:image/png;base64,aGVsbG8=", &region), Err(SampleError::BadImage));
    assert_eq!(payload_of_checked("x"), Err(SampleError::NoPayload));
    assert_eq!(payload_of_checked("x,@"), Err(SampleError::BadBase64));
    assert_eq!(payload_of_checked("x,aGk=,y"), Ok(b"hi".to_vec()));
}

#[test]
fn region_past_the_largest_coordinate_is_an_error_on_a_decoded_image() {
    let png = png_of(2, 2, (1u8..=16).collect());
    let url = image_data_url(Some("png"), &png);
    let far = roi(i32::MAX - 1, 0, 3, 1);
    assert!(!is_samplable(&far));
    assert_eq!(sample_from_url(&url, &far), Err(SampleError::OutOfRange));
    assert_eq!(sample_from_url(&url, &roi(0, i32::MAX, 1, 2)), Err(SampleError::OutOfRange));
    assert_eq!(sample_from_url("nothing", &far), Err(SampleError::NoPayload));
    assert_eq!(sample_from_url("x,@", &far), Err(SampleError::BadBase64));
    assert_eq!(sample_from_url("x,aGk=", &far), Err(SampleError::BadImage));
}

#[test]
fn regions_that_can_be_sampled() {
    assert!(is_samplable(&roi(0, 0, 10, 10)));
    assert!(is_samplable(&roi(i32::MAX, i32::MAX, 1, 1)));
    assert!(is_samplable(&roi(i32::MAX - 2, 0, 3, 1)));
    assert!(!is_samplable(&roi(i32::MAX, 0, 2, 1)));
    assert!(!is_samplable(&roi(0, i32::MAX, 1, 2)));
    assert!(is_samplable(&roi(i32::MAX, i32::MAX, 0, 5)));
    assert!(is_samplable(&roi(i32::MAX, i32::MAX, 5, -1)));
    let edge = Raster::from_parts(1, 1, vec![1, 2, 3, 4]).unwrap();
    assert_eq!(edge.sample_region(&roi(i32::MAX - 2, 0, 3, 1)), Vec::new());
}

#[test]
fn image_size_is_read_from_the_bytes() {
    assert_eq!(image_size(&png_of(3, 2, vec![7; 24])), Some((3, 2)));
    assert_eq!(image_size(&png_of(1, 5, vec![0; 20])), Some((1, 5)));
    assert_eq!(image_size(b"hello"), None);
}

#[test]
fn decoded_image_is_sampled_or_refused() {
    let region = roi(1, 0, 4, 2);
    assert_eq!(sample_decoded(&None, &region), Err(SampleError::BadImage));
    assert_eq!(sample_decoded(&None, &roi(i32::MAX, 0, 2, 1)), Err(SampleError::BadImage));
    let raster = Some(two_by_two());
    assert_eq!(sample_decoded(&raster, &region), Ok(vec![sample(1, 0, 5), sample(1, 1, 13)]));
    assert_eq!(sample_decoded(&raster, &roi(i32::MAX, 0, 2, 1)), Err(SampleError::OutOfRange));
    assert_eq!(sample_decoded(&raster, &roi(0, 0, 0, 0)), Ok(Vec::new()));
}

#[test]
fn missing_size_is_drawn_as_zero() {
    assert_eq!(size_or_zero(Some((3, 2))), (3, 2));
    assert_eq!(size_or_zero(Some((0, 9))), (0, 9));
    assert_eq!(size_or_zero(None), (0, 0));
    assert_eq!(size_or_zero(image_size(b"hello")), (0, 0));
    assert_eq!(size_or_zero(image_size(&png_of(4, 1, vec![0; 16]))), (4, 1));
}

#[test]
fn jpeg_and_webp_bytes_are_decoded_too() {
    let img = image::RgbaImage::from_raw(2, 3, vec![200; 24]).unwrap();
    let mut webp = std::io::Cursor::new(Vec::new());
    image::DynamicImage::ImageRgba8(img.clone())
        .write_to(&mut webp, image::ImageFormat::WebP)
        .unwrap();
    assert_eq!(image_size(&webp.into_inner()), Some((2, 3)));
    let mut jpeg = std::io::Cursor::new(Vec::new());
    image::DynamicImage::ImageRgba8(img)
        .to_rgb8()
        .write_to(&mut jpeg, image::ImageFormat::Jpeg)
        .unwrap();
    let raster = load_raster(&jpeg.into_inner()).unwrap();
    assert_eq!((raster.width, raster.height, raster.data.len()), (2, 3, 24));
}

#[test]
fn size_and_raster_agree_on_the_same_bytes() {
    let png = png_of(5, 3, vec![9; 60]);
    let raster = load_raster(&png).unwrap();
    assert_eq!(image_size(&png), Some((raster.width, raster.height)));
    assert_eq!(raster.data.len(), 60);
    let broken = &png[..png.len() / 2];
    assert_eq!(image_size(broken).is_some(), load_raster(broken).is_some());
    assert_eq!(image_size(b"\x89PNG\r\n\x1a\n"), None);
    assert!(load_raster(b"\x89PNG\r\n\x1a\n").is_none());
    assert_eq!(image_size(b"GIF89a"), None);
    assert!(load_raster(b"GIF89a").is_none());
}
