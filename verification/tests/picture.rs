use image::ImageFormat;
use image::Rgb;
use image::RgbImage;
use std::io::Cursor;
use tjuptatt::error::ErrorKind;
use tjuptatt::picparser::normalize_picture;
use tjuptatt::picparser::normalized_from;
use tjuptatt::picparser::picture_of;
use tjuptatt::picparser::Answer;
use tjuptatt::picparser::Kaptcha;
use tjuptatt::picparser::PICTURE_HEIGHT;
use tjuptatt::picparser::PICTURE_WIDTH;

fn jpeg(width: u32, height: u32, color: [u8; 3]) -> Vec<u8> {
    let picture = RgbImage::from_pixel(width, height, Rgb(color));
    let mut out = Vec::new();
    picture.write_to(&mut Cursor::new(&mut out), ImageFormat::Jpeg).unwrap();
    out
}

fn png(width: u32, height: u32, color: [u8; 3]) -> Vec<u8> {
    // The signature of a PNG file, followed by bytes that are no picture.
    let mut out = vec![0x89, b'P', b'N', b'G', 0x0d, 0x0a, 0x1a, 0x0a];
    out.extend_from_slice(&width.to_be_bytes());
    out.extend_from_slice(&height.to_be_bytes());
    out.extend_from_slice(&color);
    out
}

#[test]
fn a_picture_is_brought_to_the_common_size() {
    assert_eq!((PICTURE_WIDTH, PICTURE_HEIGHT), (120, 200));
    let raw = jpeg(64, 48, [200, 30, 30]);
    let out = normalize_picture(&raw).unwrap();
    assert_ne!(out, raw);
    let decoded = image::load_from_memory_with_format(&out, ImageFormat::Jpeg).unwrap();
    assert_eq!((decoded.width(), decoded.height()), (120, 200));
    let pixel = decoded.to_rgb8().get_pixel(60, 100).0;
    assert!(pixel[0] > 150 && pixel[1] < 90 && pixel[2] < 90);
}

#[test]
fn a_picture_of_the_common_size_is_still_written_anew() {
    let raw = jpeg(120, 200, [10, 200, 10]);
    let out = normalize_picture(&raw).unwrap();
    let decoded = image::load_from_memory_with_format(&out, ImageFormat::Jpeg).unwrap();
    assert_eq!((decoded.width(), decoded.height()), (120, 200));
}

#[test]
fn normalizing_is_repeatable() {
    let raw = jpeg(33, 77, [1, 2, 250]);
    assert_eq!(normalize_picture(&raw).unwrap(), normalize_picture(&raw).unwrap());
}

#[test]
fn bytes_that_are_no_jpeg_are_refused() {
    assert!(matches!(normalize_picture(b"not a picture"), Err(ErrorKind::Parse)));
    assert!(matches!(normalize_picture(&[]), Err(ErrorKind::Parse)));
    assert!(matches!(normalize_picture(&png(4, 4, [1, 2, 3])), Err(ErrorKind::Parse)));
    let mut cut = jpeg(64, 48, [200, 30, 30]);
    cut.truncate(20);
    assert!(matches!(normalize_picture(&cut), Err(ErrorKind::Parse)));
}

#[test]
fn a_puzzle_keeps_its_first_picture() {
    let mut puzzle = Kaptcha::new("https://tjupt.org/p.jpg".to_string());
    assert!(puzzle.needs_img());
    assert!(matches!(puzzle.get_img(b"junk"), Err(ErrorKind::Parse)));
    assert!(puzzle.needs_img());
    let first = jpeg(20, 20, [250, 0, 0]);
    assert!(puzzle.get_img(&first).is_ok());
    assert!(!puzzle.needs_img());
    let kept = puzzle.img_bytes.clone().unwrap();
    assert_eq!(kept, normalize_picture(&first).unwrap());
    assert!(puzzle.get_img(&jpeg(20, 20, [0, 0, 250])).is_ok());
    assert_eq!(puzzle.img_bytes.clone().unwrap(), kept);
    assert!(puzzle.get_img(b"junk").is_ok());
    assert_eq!(puzzle.img_bytes.unwrap(), kept);
}

#[test]
fn an_option_takes_its_picture() {
    let mut option = Answer::new("label".to_string(), "1".to_string());
    assert!(option.needs_img());
    assert!(matches!(option.get_img(b"junk"), Err(ErrorKind::Parse)));
    assert!(option.img_bytes.is_none());
    assert!(option.needs_img());
    let raw = jpeg(20, 30, [0, 250, 0]);
    assert!(option.get_img(&raw).is_ok());
    assert!(!option.needs_img());
    assert_eq!(option.img_bytes.clone().unwrap(), normalize_picture(&raw).unwrap());
    assert_eq!(option.name, "label");
    assert_eq!(option.value, "1");
}

#[test]
fn an_option_keeps_its_first_picture() {
    let mut option = Answer::new("label".to_string(), "1".to_string());
    option.img_url = Some("https://img.example/x.jpg".to_string());
    let first = jpeg(20, 30, [0, 250, 0]);
    assert!(option.get_img(&first).is_ok());
    let kept = option.img_bytes.clone().unwrap();
    assert_eq!(kept, normalize_picture(&first).unwrap());
    // bytes that are no picture change nothing and are no error
    assert!(option.get_img(b"junk").is_ok());
    assert_eq!(option.img_bytes.clone().unwrap(), kept);
    // another picture does not take the place of the first
    assert!(option.get_img(&jpeg(20, 30, [250, 0, 0])).is_ok());
    assert_eq!(option.img_bytes.clone().unwrap(), kept);
    assert_eq!(option.name, "label");
    assert_eq!(option.value, "1");
    assert_eq!(option.img_url.as_deref(), Some("https://img.example/x.jpg"));
    assert!(option.score.is_none());
}

#[test]
fn a_normalized_picture_is_taken_in_once() {
    let mut puzzle = Kaptcha::new("https://tjupt.org/p.jpg".to_string());
    assert!(matches!(puzzle.take_img(None), Err(ErrorKind::Parse)));
    assert!(puzzle.needs_img());
    assert!(puzzle.take_img(Some(vec![1, 2, 3])).is_ok());
    assert_eq!(puzzle.img_bytes, Some(vec![1, 2, 3]));
    assert!(puzzle.take_img(Some(vec![9])).is_ok());
    assert!(puzzle.take_img(None).is_ok());
    assert_eq!(puzzle.img_bytes, Some(vec![1, 2, 3]));
    assert_eq!(puzzle.url, "https://tjupt.org/p.jpg");

    let mut option = Answer::new("label".to_string(), "1".to_string());
    assert!(matches!(option.take_img(None), Err(ErrorKind::Parse)));
    assert!(option.needs_img());
    assert!(option.take_img(Some(vec![4, 5])).is_ok());
    assert_eq!(option.img_bytes, Some(vec![4, 5]));
    assert!(option.take_img(Some(vec![6])).is_ok());
    assert!(option.take_img(None).is_ok());
    assert_eq!(option.img_bytes, Some(vec![4, 5]));
    assert_eq!((option.name.as_str(), option.value.as_str()), ("label", "1"));
}

#[test]
fn what_the_resize_gave_is_handed_on() {
    assert_eq!(normalized_from(Ok(vec![7, 8, 9])).unwrap(), vec![7, 8, 9]);
    let error = image::load_from_memory_with_format(b"junk", ImageFormat::Jpeg).unwrap_err();
    assert!(matches!(normalized_from(Err(error)), Err(ErrorKind::Parse)));
    assert_eq!(picture_of(Ok(vec![1])), Some(vec![1]));
    assert_eq!(picture_of(Err(ErrorKind::Parse)), None);
}
