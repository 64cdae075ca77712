use image::GenericImageView;
use rawtiff::errors::ConvertError;
use rawtiff::image_buf::DecodedImage;
use rawtiff::pipeline::encode_to_tiff;
use rawtiff::pipeline::raw_to_tiff;

#[test]
fn buffer_accepts_matching_shape() {
    let img = DecodedImage::from_raw(2, 2, vec![0u8; 12]).unwrap();
    assert_eq!(img.width, 2);
    assert_eq!(img.height, 2);
    assert_eq!(img.data.len(), 12);
}

#[test]
fn buffer_accepts_empty_image() {
    let img = DecodedImage::from_raw(0, 5, Vec::new()).unwrap();
    assert_eq!(img.width, 0);
    assert_eq!(img.height, 5);
}

#[test]
fn buffer_rejects_mismatched_shape() {
    match DecodedImage::from_raw(2, 2, vec![0u8; 11]) {
        Err(ConvertError::BufferShape {
            width,
            height,
            actual,
        }) => {
            assert_eq!(width, 2);
            assert_eq!(height, 2);
            assert_eq!(actual, 11);
        }
        _ => panic!("mismatched buffer was not rejected as BufferShape"),
    }
}

#[test]
fn decode_fails_on_missing_input() {
    let r = raw_to_tiff(
        "/nonexistent_rawtiff_dir/missing.raw",
        "/tmp/rawtiff_missing_out.tiff",
    );
    assert!(matches!(r, Err(ConvertError::Decode { .. })));
}

#[test]
fn decode_fails_on_non_image_input() {
    let r = raw_to_tiff("Cargo.toml", "/tmp/rawtiff_bad_out.tiff");
    assert!(matches!(r, Err(ConvertError::Decode { .. })));
}

#[test]
fn encode_writes_a_readable_tiff() {
    let data: Vec<u8> = vec![
        255, 0, 0, 0, 255, 0, 0, 0, 255, 128, 128, 128,
    ];
    let img = DecodedImage::from_raw(2, 2, data).unwrap();
    let path = "/tmp/rawtiff_encode_ok.tiff";
    encode_to_tiff(img, path).unwrap();
    let read_back = image::open(path).unwrap();
    assert_eq!(read_back.dimensions(), (2, 2));
}

#[test]
fn encode_fails_when_output_dir_is_missing() {
    let img = DecodedImage::from_raw(1, 1, vec![9, 9, 9]).unwrap();
    let r = encode_to_tiff(img, "/tmp/rawtiff_no_such_dir/out.tiff");
    assert!(matches!(r, Err(ConvertError::Encode { .. })));
}
