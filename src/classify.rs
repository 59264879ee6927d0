//! Classification of a file's bytes into a typed block: an image when the
//! leading bytes carry an image signature, a text when the bytes are UTF-8,
//! and nothing otherwise.
use crate::content::{
    BlockModel, ContentItem, ContentItemBlock, ContentModel, ImageContent, ImageMetadata,
    TextContent, TextMetadata,
};
use vstd::prelude::*;
use vstd::utf8::{decode_utf8, valid_utf8};

verus! {

/// Whether infer recognises the given leading bytes as an image signature.
pub uninterp spec fn sniffed_image(head: Seq<u8>) -> bool;

/// The MIME type of the first file type that infer matches on the given
/// leading bytes, if any.
pub uninterp spec fn sniffed_mime(head: Seq<u8>) -> Option<Seq<char>>;

/// The pixel width and height that the image crate reads from an encoded
/// image, if it can read them.
pub uninterp spec fn decoded_dimensions(bytes: Seq<u8>) -> Option<(u32, u32)>;

#[verifier::external_type_specification]
#[verifier::external_body]
pub struct ExImageError(image::ImageError);

/// Why a buffer could not be classified.
#[derive(Clone, Copy, Debug, PartialEq, Eq, Structural)]
pub enum ClassifyError {
    /// The leading bytes carry an image signature, but the image cannot be decoded.
    UndecodableImage,
}

/// The number of leading bytes inspected for a file type signature.
pub const SNIFF_LEN: usize = 4;

/// The leading bytes of a buffer that are inspected for a signature: the first
/// four, or the whole buffer when it is shorter.
pub open spec fn sniff_window(buffer: Seq<u8>) -> Seq<u8> {
    if buffer.len() < SNIFF_LEN {
        buffer
    } else {
        buffer.take(SNIFF_LEN as int)
    }
}

/// The block built from an image's bytes, given the dimensions read from it
/// (none when it cannot be decoded) and its MIME type.
pub open spec fn image_block_model(
    buffer: Seq<u8>,
    dimensions: Option<(u32, u32)>,
    mime_type: Seq<char>,
) -> Result<BlockModel, ClassifyError> {
    let size = buffer.len() as u64;
    match dimensions {
        Some(dims) => Ok(
            BlockModel {
                content: ContentModel::Image {
                    bytes: buffer,
                    size_bytes: size,
                    mime_type,
                    width_px: dims.0,
                    height_px: dims.1,
                },
                size_bytes: size,
            },
        ),
        None => Err(ClassifyError::UndecodableImage),
    }
}

/// The text block built from a buffer, when the buffer is UTF-8.
pub open spec fn text_block_model(buffer: Seq<u8>) -> Option<BlockModel> {
    let size = buffer.len() as u64;
    if valid_utf8(buffer) {
        Some(
            BlockModel {
                content: ContentModel::Text { text: decode_utf8(buffer), size_bytes: size },
                size_bytes: size,
            },
        )
    } else {
        None
    }
}

/// What a buffer classifies to: an image block, a text block, nothing (the
/// bytes are neither), or an error (the image cannot be decoded).
pub open spec fn classification(buffer: Seq<u8>) -> Result<Option<BlockModel>, ClassifyError> {
    let head = sniff_window(buffer);
    if sniffed_image(head) {
        match image_block_model(buffer, decoded_dimensions(buffer), sniffed_mime(head)->Some_0) {
            Ok(m) => Ok(Some(m)),
            Err(e) => Err(e),
        }
    } else {
        Ok(text_block_model(buffer))
    }
}

/// The outcome of a classification as plain values.
pub open spec fn outcome_view(r: Result<Option<ContentItemBlock>, ClassifyError>) -> Result<
    Option<BlockModel>,
    ClassifyError,
> {
    match r {
        Ok(Some(block)) => Ok(Some(block@)),
        Ok(None) => Ok(None),
        Err(e) => Err(e),
    }
}

/// Every block records the byte length of the buffer it was built from, both
/// at the top level and in the item's own metadata.
pub proof fn lemma_block_size_is_input_length(buffer: Seq<u8>)
    ensures
        classification(buffer) matches Ok(Some(m)) ==> m.size_bytes == buffer.len() as u64
            && m.content.size_bytes() == buffer.len() as u64,
{
}

/// A buffer whose leading bytes carry an image signature and whose dimensions
/// can be read becomes an image block holding exactly the input bytes, the
/// sniffed MIME type and the decoded width and height.
pub proof fn lemma_image_block_keeps_input(buffer: Seq<u8>)
    requires
        sniffed_image(sniff_window(buffer)),
        decoded_dimensions(buffer) is Some,
    ensures
        classification(buffer) == Ok::<Option<BlockModel>, ClassifyError>(
            Some(
                BlockModel {
                    content: ContentModel::Image {
                        bytes: buffer,
                        size_bytes: buffer.len() as u64,
                        mime_type: sniffed_mime(sniff_window(buffer))->Some_0,
                        width_px: decoded_dimensions(buffer)->Some_0.0,
                        height_px: decoded_dimensions(buffer)->Some_0.1,
                    },
                    size_bytes: buffer.len() as u64,
                },
            ),
        ),
{
}

/// A buffer that carries an image signature but cannot be decoded is an
/// error, never taken for text.
pub proof fn lemma_undecodable_image_is_error(buffer: Seq<u8>)
    requires
        sniffed_image(sniff_window(buffer)),
        decoded_dimensions(buffer) is None,
    ensures
        classification(buffer) == Err::<Option<BlockModel>, ClassifyError>(
            ClassifyError::UndecodableImage,
        ),
{
}

/// A UTF-8 buffer without an image signature becomes a text block holding
/// its decoded characters and its byte length.
pub proof fn lemma_text_block_keeps_input(buffer: Seq<u8>)
    requires
        !sniffed_image(sniff_window(buffer)),
        valid_utf8(buffer),
    ensures
        classification(buffer) == Ok::<Option<BlockModel>, ClassifyError>(
            Some(
                BlockModel {
                    content: ContentModel::Text {
                        text: decode_utf8(buffer),
                        size_bytes: buffer.len() as u64,
                    },
                    size_bytes: buffer.len() as u64,
                },
            ),
        ),
{
}

/// Nothing is produced, and no error raised, exactly for a buffer that has no
/// image signature and is not UTF-8.
pub proof fn lemma_skip_exactly_unrecognised(buffer: Seq<u8>)
    ensures
        classification(buffer) == Ok::<Option<BlockModel>, ClassifyError>(None) <==> (!sniffed_image(
            sniff_window(buffer),
        ) && !valid_utf8(buffer)),
{
}

/// Byte-identical content is classified into the same block, so a
/// content-addressed store gives it the same identifier each time.
pub proof fn lemma_same_content_same_block(a: Seq<u8>, b: Seq<u8>)
    requires
        a == b,
    ensures
        classification(a) == classification(b),
{
}

/// Relies on infer::is_image: whether the bytes match one of its image signatures.
#[verifier::external_body]
fn sniff_is_image(head: &[u8]) -> (r: bool)
    ensures
        r == sniffed_image(head@),
{
    infer::is_image(head)
}

/// Relies on infer::get and infer::Type::mime_type: the MIME type of the first
/// file type whose signature matches. infer::get scans the same signatures as
/// infer::is_image, so it finds a type wherever that finds an image.
#[verifier::external_body]
fn sniff_mime(head: &[u8]) -> (r: Option<String>)
    ensures
        match r {
            Some(m) => sniffed_mime(head@) == Some(m@),
            None => sniffed_mime(head@) is None,
        },
        sniffed_image(head@) ==> r is Some,
{
    infer::get(head).map(|t| t.mime_type().to_string())
}

/// Relies on image::io::Reader: reads the pixel dimensions of an image held in
/// memory, with the format guessed from its content.
#[verifier::external_body]
fn read_dimensions(bytes: &[u8]) -> (r: Result<(u32, u32), image::ImageError>)
    ensures
        match r {
            Ok(dims) => decoded_dimensions(bytes@) == Some(dims),
            Err(_) => decoded_dimensions(bytes@) is None,
        },
{
    image::io::Reader::new(std::io::Cursor::new(bytes))
        .with_guessed_format()
        .map_err(image::ImageError::IoError)?
        .into_dimensions()
}

/// Relies on String::from_utf8: the decoded string when the bytes are UTF-8.
#[verifier::external_body]
fn utf8_string(bytes: Vec<u8>) -> (r: Option<String>)
    ensures
        r is Some <==> valid_utf8(bytes@),
        r matches Some(s) ==> s@ == decode_utf8(bytes@),
{
    String::from_utf8(bytes).ok()
}

/// Relies on Vec::into_boxed_slice: the same bytes, in a buffer that cannot grow.
#[verifier::external_body]
fn boxed_bytes(bytes: Vec<u8>) -> (r: Box<[u8]>)
    ensures
        r@ == bytes@,
{
    bytes.into_boxed_slice()
}

/// Builds the image block for `buffer`, given the dimensions read from it
/// (none when it cannot be decoded) and its MIME type.
pub fn image_block(buffer: Vec<u8>, dimensions: Option<(u32, u32)>, mime_type: String) -> (r:
    Result<ContentItemBlock, ClassifyError>)
    ensures
        match (r, image_block_model(buffer@, dimensions, mime_type@)) {
            (Ok(block), Ok(m)) => block@ == m,
            (Err(e), Err(f)) => e == f,
            _ => false,
        },
{
    let size_bytes = buffer.len() as u64;
    match dimensions {
        Some((width_px, height_px)) => {
            let buffer = boxed_bytes(buffer);
            Ok(
                ContentItemBlock {
                    content: ContentItem::Image(
                        ImageContent { buffer },
                        ImageMetadata { size_bytes, mime_type, width_px, height_px },
                    ),
                    size_bytes,
                },
            )
        },
        None => Err(ClassifyError::UndecodableImage),
    }
}

/// Builds the text block for `buffer`, or nothing when it is not UTF-8.
pub fn text_block(buffer: Vec<u8>) -> (r: Option<ContentItemBlock>)
    ensures
        match (r, text_block_model(buffer@)) {
            (Some(block), Some(m)) => block@ == m,
            (None, None) => true,
            _ => false,
        },
{
    let size_bytes = buffer.len() as u64;
    match utf8_string(buffer) {
        Some(string) => Some(
            ContentItemBlock {
                content: ContentItem::Text(TextContent { string }, TextMetadata { size_bytes }),
                size_bytes,
            },
        ),
        None => None,
    }
}

/// Classifies a file's bytes into a block ready for the store. Returns
/// `Ok(None)` when the bytes are neither an image nor UTF-8 text: such content
/// is skipped, which is no failure.
pub fn classify(buffer: Vec<u8>) -> (r: Result<Option<ContentItemBlock>, ClassifyError>)
    ensures
        outcome_view(r) == classification(buffer@),
{
    let len = buffer.len();
    let n: usize = if len < SNIFF_LEN {
        len
    } else {
        SNIFF_LEN
    };
    let head = &buffer.as_slice()[0..n];
    proof {
        assert(head@ == sniff_window(buffer@));
    }
    if sniff_is_image(head) {
        let mime_type = match sniff_mime(head) {
            Some(m) => m,
            // never taken: infer::get finds a type wherever infer::is_image finds an image
            None => return Err(ClassifyError::UndecodableImage),
        };
        let dimensions = match read_dimensions(buffer.as_slice()) {
            Ok(dims) => Some(dims),
            Err(_) => None,
        };
        match image_block(buffer, dimensions, mime_type) {
            Ok(block) => Ok(Some(block)),
            Err(e) => Err(e),
        }
    } else {
        Ok(text_block(buffer))
    }
}

} // verus!
