use fzr::classify::{classify, ClassifyError};
use fzr::content::{ContentItem, ImageContent, ImageMetadata, TextContent, TextMetadata};

/// Classifies the bytes as a store would receive them, then unpacks the block
/// as a load hands it back.
fn round_trip(data: &[u8]) -> ContentItem {
    let block = classify(data.to_vec()).unwrap().unwrap();
    assert_eq!(block.size_bytes, data.len() as u64);
    block.into_content()
}

#[test]
fn test_store_load() {
    struct Test {
        name: &'static str,
        data: &'static [u8],
        expected: ContentItem,
    }

    let tests = vec![
        Test {
            name: "round-trip smallest possible gif",
            data: b"GIF89a\x01\0\x01\0\0\0\0;",
            expected: ContentItem::Image(
                ImageContent {
                    buffer: Box::new(*b"GIF89a\x01\0\x01\0\0\0\0;"),
                },
                ImageMetadata {
                    size_bytes: 14,
                    mime_type: "image/gif".into(),
                    width_px: 1,
                    height_px: 1,
                },
            ),
        },
        Test {
            name: "round-trip text file",
            data: b"howdy",
            expected: ContentItem::Text(
                TextContent {
                    string: "howdy".into(),
                },
                TextMetadata { size_bytes: 5 },
            ),
        },
    ];

    for test in tests.into_iter() {
        let actual = round_trip(test.data);
        assert_eq!(test.expected, actual, "{}", test.name);
    }
}

#[test]
fn image_dimensions_are_width_then_height() {
    let data: &[u8] = b"GIF89a\x02\0\x03\0\0\0\0;";
    match round_trip(data) {
        ContentItem::Image(content, meta) => {
            assert_eq!(&*content.buffer, data);
            assert_eq!(meta.width_px, 2);
            assert_eq!(meta.height_px, 3);
            assert_eq!(meta.mime_type, "image/gif");
            assert_eq!(meta.size_bytes, 14);
        }
        other => panic!("expected an image, got {:?}", other),
    }
}

#[test]
fn text_keeps_multibyte_characters() {
    let data = "h\u{e9}llo, w\u{f6}rld".as_bytes();
    match round_trip(data) {
        ContentItem::Text(content, meta) => {
            assert_eq!(content.string, "h\u{e9}llo, w\u{f6}rld");
            assert_eq!(meta.size_bytes, 14);
        }
        other => panic!("expected a text, got {:?}", other),
    }
}

#[test]
fn empty_buffer_is_empty_text() {
    let expected = ContentItem::Text(
        TextContent {
            string: String::new(),
        },
        TextMetadata { size_bytes: 0 },
    );
    assert_eq!(round_trip(b""), expected);
}

#[test]
fn short_text_is_classified_without_a_full_window() {
    let expected = ContentItem::Text(
        TextContent {
            string: "hi".into(),
        },
        TextMetadata { size_bytes: 2 },
    );
    assert_eq!(round_trip(b"hi"), expected);
}

#[test]
fn undecodable_binary_is_skipped() {
    let data = vec![0x80u8, 0x81, 0x82, 0x83, 0x84, 0xff];
    assert!(matches!(classify(data), Ok(None)));
}

#[test]
fn truncated_image_is_an_error() {
    let data = b"GIF89a".to_vec();
    assert_eq!(classify(data).unwrap_err(), ClassifyError::UndecodableImage);
}

#[test]
fn corrupt_png_is_an_error_not_text() {
    let data = vec![0x89u8, b'P', b'N', b'G', b'x', b'y', b'z'];
    assert_eq!(classify(data).unwrap_err(), ClassifyError::UndecodableImage);
}

#[test]
fn identical_content_gives_identical_blocks() {
    let first = classify(b"same bytes".to_vec()).unwrap().unwrap();
    let second = classify(b"same bytes".to_vec()).unwrap().unwrap();
    assert_eq!(first, second);
    let gif: &[u8] = b"GIF89a\x01\0\x01\0\0\0\0;";
    assert_eq!(
        classify(gif.to_vec()).unwrap().unwrap(),
        classify(gif.to_vec()).unwrap().unwrap()
    );
}
