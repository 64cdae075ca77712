use rawtiff::digits::usize_to_string;
use rawtiff::errors::ConvertError;
use rawtiff::lines::complete_line;
use rawtiff::lines::error_line;
use rawtiff::lines::start_line;

#[test]
fn decimal_rendering() {
    assert_eq!(usize_to_string(0), String::from("0"));
    assert_eq!(usize_to_string(7), String::from("7"));
    assert_eq!(usize_to_string(10), String::from("10"));
    assert_eq!(usize_to_string(123456), String::from("123456"));
    assert_eq!(
        usize_to_string(usize::MAX),
        String::from("18446744073709551615")
    );
}

#[test]
fn start_line_exact() {
    assert_eq!(
        start_line(1, 3, "a/photo.raw", "out/photo.tiff"),
        String::from("[1 / 3] start \"a/photo.raw\" to \"out/photo.tiff\"")
    );
}

#[test]
fn complete_line_exact() {
    assert_eq!(
        complete_line(2, 3, "a/photo.raw", "out/photo.tiff"),
        String::from("[2 / 3] complete \"a/photo.raw\" -> \"out/photo.tiff\"")
    );
}

#[test]
fn error_line_exact() {
    let e = ConvertError::Decode {
        message: String::from("boom"),
    };
    assert_eq!(
        error_line(1, 2, "x.raw", &e),
        String::from("[1 / 2] error converting \"x.raw\": decode error: boom")
    );
}

#[test]
fn describe_argument() {
    let e = ConvertError::Argument {
        input: String::from(".."),
    };
    assert_eq!(
        e.describe(),
        String::from("no file name in input path \"..\"")
    );
}

#[test]
fn describe_buffer_shape() {
    let e = ConvertError::BufferShape {
        width: 2,
        height: 3,
        actual: 10,
    };
    assert_eq!(
        e.describe(),
        String::from("decoded buffer of 10 bytes does not match 2x3x3")
    );
}

#[test]
fn describe_encode() {
    let e = ConvertError::Encode {
        message: String::from("denied"),
    };
    assert_eq!(e.describe(), String::from("encode error: denied"));
}
