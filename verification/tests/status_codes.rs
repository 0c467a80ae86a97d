use zero_fill::error::status_code;
use zero_fill::error::Error;
use zero_fill::error::ZERO_FILL_C_STR_CONV;
use zero_fill::error::ZERO_FILL_FILENAME;
use zero_fill::error::ZERO_FILL_IO;
use zero_fill::error::ZERO_FILL_OK;
use zero_fill::error::ZERO_FILL_WAV;

#[test]
fn test_status_success() {
    assert_eq!(status_code(&Ok(())), ZERO_FILL_OK);
    assert_eq!(status_code(&Ok(())), 0);
}

#[test]
fn test_status_encoding_error() {
    let utf8_err = std::str::from_utf8(&[0xFFu8]).unwrap_err();
    assert_eq!(status_code(&Err(Error::CStrConv(utf8_err))), ZERO_FILL_C_STR_CONV);
    assert_eq!(ZERO_FILL_C_STR_CONV, 1);
}

#[test]
fn test_status_filename_error() {
    assert_eq!(status_code(&Err(Error::Filename)), ZERO_FILL_FILENAME);
    assert_eq!(ZERO_FILL_FILENAME, 2);
}

#[test]
fn test_status_io_error() {
    let io_err = std::io::Error::new(std::io::ErrorKind::NotFound, "no such file");
    assert_eq!(status_code(&Err(Error::IO(io_err))), ZERO_FILL_IO);
    assert_eq!(ZERO_FILL_IO, 3);
}

#[test]
fn test_status_wav_error() {
    assert_eq!(status_code(&Err(Error::Wav(hound::Error::Unsupported))), ZERO_FILL_WAV);
    assert_eq!(ZERO_FILL_WAV, 4);
}

#[test]
fn test_error_from_io() {
    let io_err = std::io::Error::new(std::io::ErrorKind::PermissionDenied, "locked");
    let e = Error::from(io_err);
    assert!(matches!(e, Error::IO(_)));
    assert_eq!(status_code(&Err(e)), ZERO_FILL_IO);
}

#[test]
fn test_error_from_wav() {
    let e = Error::from(hound::Error::TooWide);
    assert!(matches!(e, Error::Wav(_)));
    assert_eq!(status_code(&Err(e)), ZERO_FILL_WAV);
}
