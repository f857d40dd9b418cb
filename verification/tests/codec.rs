use bawawa::{Decode, Encode, LinesCodec};

#[test]
fn lines_codec_decodes_complete_frames_in_order() {
    let mut codec = LinesCodec::new();
    let mut buffer: Vec<u8> = b"alpha\nbeta\ngamma".to_vec();

    assert_eq!(codec.decode(&mut buffer).unwrap(), Some("alpha".to_owned()));
    assert_eq!(codec.decode(&mut buffer).unwrap(), Some("beta".to_owned()));
    assert_eq!(codec.decode(&mut buffer).unwrap(), None);
    assert_eq!(buffer, b"gamma".to_vec());

    assert_eq!(codec.decode_eof(&mut buffer).unwrap(), Some("gamma".to_owned()));
    assert!(buffer.is_empty());
    assert_eq!(codec.decode_eof(&mut buffer).unwrap(), None);
}

#[test]
fn lines_codec_encodes_with_separator() {
    let mut codec = LinesCodec::new();
    let mut bytes: Vec<u8> = Vec::new();
    codec.encode(&"Hello World!".to_owned(), &mut bytes).unwrap();
    codec.encode(&"Bawawa".to_owned(), &mut bytes).unwrap();
    assert_eq!(bytes, b"Hello World!\nBawawa\n".to_vec());
}

#[test]
fn lines_codec_round_trips_in_submission_order() {
    let mut codec = LinesCodec::new();
    let items = vec!["Hello World!".to_owned(), "Bawawa".to_owned(), "".to_owned()];
    let mut bytes: Vec<u8> = Vec::new();
    for item in &items {
        codec.encode(item, &mut bytes).unwrap();
    }
    let mut decoded: Vec<String> = Vec::new();
    while let Ok(Some(item)) = codec.decode(&mut bytes) {
        decoded.push(item);
    }
    assert_eq!(decoded, items);
    assert!(bytes.is_empty());
}

#[test]
fn lines_codec_rejects_item_containing_separator() {
    let mut codec = LinesCodec::new();
    let mut bytes: Vec<u8> = Vec::new();
    assert!(codec.encode(&"two\nlines".to_owned(), &mut bytes).is_err());
    assert!(bytes.is_empty());
}

#[test]
fn lines_codec_reports_invalid_utf8() {
    let mut codec = LinesCodec::new();
    let mut buffer: Vec<u8> = vec![0xFF, 0x0A];
    assert!(codec.decode(&mut buffer).is_err());
    assert!(buffer.is_empty());
}

#[test]
fn lines_codec_decodes_multibyte_text() {
    let mut codec = LinesCodec::new();
    let mut bytes: Vec<u8> = Vec::new();
    codec.encode(&"grüße 🌍".to_owned(), &mut bytes).unwrap();
    assert_eq!(codec.decode(&mut bytes).unwrap(), Some("grüße 🌍".to_owned()));
}
