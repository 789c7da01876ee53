use rcli::cli::base64::Base64Format;
use rcli::process::b64::{process_decode, process_encode};
use rcli::process::KeyError;

#[test]
fn test_encode_standard() {
    assert_eq!(process_encode(b"hello", Base64Format::Standard), "aGVsbG8=");
    assert_eq!(process_encode(b"", Base64Format::Standard), "");
}

#[test]
fn test_encode_urlsafe_unpadded() {
    assert_eq!(process_encode(b"hello", Base64Format::UrlSafe), "aGVsbG8");
    // The URL-safe alphabet writes `-` and `_` where the standard one writes
    // `+` and `/`.
    assert_eq!(process_encode(&[251, 255], Base64Format::Standard), "+/8=");
    assert_eq!(process_encode(&[251, 255], Base64Format::UrlSafe), "-_8");
}

#[test]
fn test_decode_standard() {
    assert_eq!(
        process_decode("aGVsbG8=", Base64Format::Standard),
        Ok(b"hello".to_vec())
    );
    assert_eq!(
        process_decode("@@@", Base64Format::Standard),
        Err(KeyError::BadEncoding)
    );
}

#[test]
fn test_decode_urlsafe() {
    assert_eq!(
        process_decode("aGVsbG8", Base64Format::UrlSafe),
        Ok(b"hello".to_vec())
    );
    assert_eq!(
        process_decode("+/8=", Base64Format::UrlSafe),
        Err(KeyError::BadEncoding)
    );
}

#[test]
fn test_encode_decode_round_trip() {
    let data: Vec<u8> = (0u8..=255).collect();
    let std_text = process_encode(&data, Base64Format::Standard);
    assert_eq!(
        process_decode(&std_text, Base64Format::Standard),
        Ok(data.clone())
    );
    let url_text = process_encode(&data, Base64Format::UrlSafe);
    assert_eq!(process_decode(&url_text, Base64Format::UrlSafe), Ok(data));
    assert!(!url_text.contains('\n'));
    assert!(!url_text.contains('='));
}
