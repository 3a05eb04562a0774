//! The error taxonomy shared by the conversion and resize pipelines.

use vstd::prelude::*;

verus! {

/// Everything that can go wrong while transforming one image.
#[derive(Clone, Copy, Debug, PartialEq, Eq, Structural)]
pub enum TransformError {
    /// The input path could not be read, or the output could not be written.
    Io,
    /// The content matches none of the recognised formats.
    UnsupportedFormat,
    /// The content matched a recognised format but its bytes are malformed.
    Decode,
    /// The encoder rejected the raster.
    Encode,
    /// The requested target size is degenerate.
    InvalidDimensions,
}

/// The human-readable description attached to each error.
pub open spec fn error_text_spec(e: TransformError) -> Seq<char> {
    match e {
        TransformError::Io => "could not read or write the file"@,
        TransformError::UnsupportedFormat => "unsupported image format"@,
        TransformError::Decode => "the image data is malformed"@,
        TransformError::Encode => "the encoder rejected the image"@,
        TransformError::InvalidDimensions => "the target dimensions are degenerate"@,
    }
}

impl TransformError {
    /// A human-readable description of the error.
    pub fn describe(&self) -> (r: String)
        ensures
            r@ == error_text_spec(*self),
    {
        match self {
            TransformError::Io => "could not read or write the file".to_owned(),
            TransformError::UnsupportedFormat => "unsupported image format".to_owned(),
            TransformError::Decode => "the image data is malformed".to_owned(),
            TransformError::Encode => "the encoder rejected the image".to_owned(),
            TransformError::InvalidDimensions => "the target dimensions are degenerate".to_owned(),
        }
    }
}

/// Every error carries a non-empty description.
pub proof fn lemma_error_text_nonempty(e: TransformError)
    ensures
        error_text_spec(e).len() > 0,
{
    reveal_strlit("could not read or write the file");
    reveal_strlit("unsupported image format");
    reveal_strlit("the image data is malformed");
    reveal_strlit("the encoder rejected the image");
    reveal_strlit("the target dimensions are degenerate");
}

} // verus!
