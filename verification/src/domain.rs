use vstd::prelude::*;

verus! {

/// What a successful compression yields: where the output lives, how large
/// it is, its media duration when the encoder reported one, and the size of
/// the original for the caller's before/after comparison.
pub struct CompressionResult {
    pub output_path: Vec<u8>,
    pub output_size: u64,
    pub duration_millis: Option<u64>,
    pub original_size: u64,
}

impl CompressionResult {
    /// How many bytes the compression saved; negative when the output grew.
    pub fn size_delta(&self) -> (d: i128)
        ensures
            d == self.original_size - self.output_size,
    {
        (self.original_size as i128) - (self.output_size as i128)
    }
}

/// A generated thumbnail image and its pixel dimensions.
pub struct VideoThumbnail {
    pub image_path: Vec<u8>,
    pub width: u32,
    pub height: u32,
}

/// What kind of entry a path names.
#[derive(Clone, Copy, PartialEq, Eq, Structural, Debug)]
pub enum FileKind {
    File,
    Directory,
    Other,
}

/// Size, modification time and kind of a file, read on demand.
pub struct FileMetadata {
    pub size: u64,
    pub modified_millis: u64,
    pub kind: FileKind,
}

} // verus!
