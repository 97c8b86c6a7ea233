use vstd::prelude::*;
use vstd::string::StrSliceExecFns;

verus! {

/// Why a requested media operation could not be carried out.
///
/// Every failure of the core is one of these; the surrounding shell turns it
/// into the single diagnostic string its callers expect via [`CompressError::message`].
#[derive(Clone, Copy, PartialEq, Eq, Structural, Debug)]
pub enum CompressError {
    /// The requested preset name is not one of the known presets.
    UnknownPreset,
    /// The asset directory could not be created or is not writable.
    DirectoryUnavailable,
    /// The encoder binary could not be started at all.
    ProcessSpawnFailure,
    /// The encoder ran but exited unsuccessfully or left no usable output.
    EncoderRuntimeFailure,
    /// The caller cancelled the operation before it completed.
    Cancelled,
}

impl CompressError {
    /// The caller-facing description of this failure.
    pub open spec fn spec_message(self) -> Seq<char> {
        match self {
            CompressError::UnknownPreset => "unknown preset"@,
            CompressError::DirectoryUnavailable => "asset directory unavailable"@,
            CompressError::ProcessSpawnFailure => "could not start the encoder process"@,
            CompressError::EncoderRuntimeFailure => "the encoder failed or produced no output"@,
            CompressError::Cancelled => "the operation was cancelled"@,
        }
    }

    /// Renders the failure as the diagnostic string reported to callers.
    pub fn message(&self) -> (r: String)
        ensures
            r@ == self.spec_message(),
    {
        match self {
            CompressError::UnknownPreset => "unknown preset".to_owned(),
            CompressError::DirectoryUnavailable => "asset directory unavailable".to_owned(),
            CompressError::ProcessSpawnFailure => "could not start the encoder process".to_owned(),
            CompressError::EncoderRuntimeFailure => "the encoder failed or produced no output".to_owned(),
            CompressError::Cancelled => "the operation was cancelled".to_owned(),
        }
    }

    /// The diagnostic, as the bytes of its UTF-8 rendering.
    pub open spec fn spec_message_bytes(self) -> Seq<u8> {
        vstd::utf8::encode_utf8(self.spec_message())
    }

    /// Renders the failure's diagnostic as bytes, for composition with the
    /// raw diagnostic text captured off the encoder's stream.
    pub fn message_bytes(&self) -> (r: Vec<u8>)
        ensures
            r@ == self.spec_message_bytes(),
    {
        let m = self.message();
        m.as_str().as_bytes_vec()
    }
}

} // verus!
