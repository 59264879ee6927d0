//! The typed content items and the block that is handed to the store.
use vstd::prelude::*;

verus! {

/// The raw encoded bytes of an image; their length is fixed once created.
#[derive(Debug, PartialEq, Eq)]
pub struct ImageContent {
    pub buffer: Box<[u8]>,
}

/// What is known of an image: its byte size, its sniffed MIME type and its
/// pixel dimensions.
#[derive(Clone, Debug, PartialEq, Eq)]
pub struct ImageMetadata {
    pub size_bytes: u64,
    pub mime_type: String,
    pub width_px: u32,
    pub height_px: u32,
}

/// The decoded text of a file.
#[derive(Clone, Debug, PartialEq, Eq)]
pub struct TextContent {
    pub string: String,
}

/// What is known of a text: the byte length of the buffer it was decoded from.
#[derive(Clone, Debug, PartialEq, Eq)]
pub struct TextMetadata {
    pub size_bytes: u64,
}

/// A typed content item: exactly one of an image or a text.
#[derive(Debug, PartialEq, Eq)]
pub enum ContentItem {
    Image(ImageContent, ImageMetadata),
    Text(TextContent, TextMetadata),
}

/// The unit handed to the store: one content item and its byte size.
#[derive(Debug, PartialEq, Eq)]
pub struct ContentItemBlock {
    pub content: ContentItem,
    pub size_bytes: u64,
}

/// A content item as plain values.
pub enum ContentModel {
    Image { bytes: Seq<u8>, size_bytes: u64, mime_type: Seq<char>, width_px: u32, height_px: u32 },
    Text { text: Seq<char>, size_bytes: u64 },
}

/// A block as plain values.
pub struct BlockModel {
    pub content: ContentModel,
    pub size_bytes: u64,
}

impl View for ContentItem {
    type V = ContentModel;

    open spec fn view(&self) -> ContentModel {
        match self {
            ContentItem::Image(c, m) => ContentModel::Image {
                bytes: c.buffer@,
                size_bytes: m.size_bytes,
                mime_type: m.mime_type@,
                width_px: m.width_px,
                height_px: m.height_px,
            },
            ContentItem::Text(c, m) => ContentModel::Text { text: c.string@, size_bytes: m.size_bytes },
        }
    }
}

impl View for ContentItemBlock {
    type V = BlockModel;

    open spec fn view(&self) -> BlockModel {
        BlockModel { content: self.content@, size_bytes: self.size_bytes }
    }
}

impl ContentModel {
    /// The byte size recorded in the item's own metadata.
    pub open spec fn size_bytes(self) -> u64 {
        match self {
            ContentModel::Image { size_bytes, .. } => size_bytes,
            ContentModel::Text { size_bytes, .. } => size_bytes,
        }
    }
}

impl ContentItemBlock {
    /// Takes the content item out of a fetched block.
    pub fn into_content(self) -> (r: ContentItem)
        ensures
            r@ == self@.content,
    {
        self.content
    }
}

} // verus!
