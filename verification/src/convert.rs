//! The conversion pipeline: an arbitrary recognised raster image is
//! re-encoded, in memory, as lossy WebP.

use vstd::prelude::*;

use crate::codec::{
    decode_input, decode_input_spec, decoded_dims, encode_webp_lossy, webp_lossy_encoding,
};
use crate::error::{error_text_spec, TransformError};
use crate::format::detect_spec;

verus! {

/// Converts encoded image bytes of any recognised format into lossy
/// WebP bytes at the given quality.
///
/// The format is sniffed from the content; the input is rejected with
/// the exact error that names the first stage that failed.
pub fn image_to_webp(bytes: &Vec<u8>, quality: u8) -> (r: Result<Vec<u8>, TransformError>)
    requires
        quality <= 100,
    ensures
        r == Err::<Vec<u8>, TransformError>(TransformError::UnsupportedFormat) <==> detect_spec(
            bytes@,
        ) is None,
        r == Err::<Vec<u8>, TransformError>(TransformError::Decode) <==> (detect_spec(bytes@)
            is Some && decoded_dims(bytes@) is None),
        r matches Ok(b) ==> decode_input_spec(bytes@) is Ok && webp_lossy_encoding(
            bytes@,
            quality,
        ) == Some(b@),
        r == Err::<Vec<u8>, TransformError>(TransformError::Encode) ==> decode_input_spec(
            bytes@,
        ) is Ok,
        r matches Err(e) ==> (e == TransformError::UnsupportedFormat || e == TransformError::Decode
            || e == TransformError::Encode),
{
    let img = match decode_input(bytes) {
        Ok(img) => img,
        Err(e) => {
            return Err(e);
        },
    };
    match encode_webp_lossy(&img, quality) {
        Ok(out) => Ok(out),
        Err(()) => Err(TransformError::Encode),
    }
}

/// One per-item report of the conversion pipeline.
pub enum ConversionOutcome {
    Completed { input: String, output: Vec<u8> },
    Failed { input: String, error: String },
}

/// The mathematical model of a [`ConversionOutcome`].
pub enum ConversionOutcomeView {
    Completed { input: Seq<char>, output: Seq<u8> },
    Failed { input: Seq<char>, error: Seq<char> },
}

impl View for ConversionOutcome {
    type V = ConversionOutcomeView;

    open spec fn view(&self) -> ConversionOutcomeView {
        match self {
            ConversionOutcome::Completed { input, output } => ConversionOutcomeView::Completed {
                input: input@,
                output: output@,
            },
            ConversionOutcome::Failed { input, error } => ConversionOutcomeView::Failed {
                input: input@,
                error: error@,
            },
        }
    }
}

/// The input path an outcome reports on.
pub open spec fn outcome_input(o: ConversionOutcomeView) -> Seq<char> {
    match o {
        ConversionOutcomeView::Completed { input, .. } => input,
        ConversionOutcomeView::Failed { input, .. } => input,
    }
}

/// The bytes read from one input path, or `None` where the path could
/// not be read.
pub open spec fn read_view(d: Option<Vec<u8>>) -> Option<Seq<u8>> {
    match d {
        None => None,
        Some(v) => Some(v@),
    }
}

/// Everything the per-item conversion step promises of its outcome:
/// the outcome names the submitted path; an unreadable path fails with
/// the I/O description; each rejected stage fails with its own
/// description; and a completion carries exactly the lossy WebP
/// encoding of the input at the requested quality.
pub open spec fn conversion_step_ok(
    path: Seq<char>,
    data: Option<Seq<u8>>,
    quality: u8,
    o: ConversionOutcomeView,
) -> bool {
    &&& outcome_input(o) == path
    &&& (data is None ==> o == ConversionOutcomeView::Failed {
        input: path,
        error: error_text_spec(TransformError::Io),
    })
    &&& (data matches Some(b) ==> {
        &&& (detect_spec(b) is None ==> o == ConversionOutcomeView::Failed {
            input: path,
            error: error_text_spec(TransformError::UnsupportedFormat),
        })
        &&& ((detect_spec(b) is Some && decoded_dims(b) is None) ==> o
            == ConversionOutcomeView::Failed {
            input: path,
            error: error_text_spec(TransformError::Decode),
        })
        &&& (o matches ConversionOutcomeView::Completed { output, .. } ==> detect_spec(b) is Some
            && decoded_dims(b) is Some && webp_lossy_encoding(b, quality) == Some(output))
        &&& (o matches ConversionOutcomeView::Failed { error, .. } ==> ((detect_spec(b) is Some
            && decoded_dims(b) is Some) ==> error == error_text_spec(TransformError::Encode)))
    })
}

/// An input whose path could not be read always yields a failure
/// outcome that names that path and carries a non-empty description,
/// whatever the requested quality.
pub proof fn lemma_unreadable_input_fails(
    path: Seq<char>,
    quality: u8,
    o: ConversionOutcomeView,
)
    requires
        conversion_step_ok(path, None, quality, o),
    ensures
        o matches ConversionOutcomeView::Failed { input, error } && input == path && error.len()
            > 0,
{
    crate::error::lemma_error_text_nonempty(TransformError::Io);
}

/// Turns the bytes read from one submitted path (or the failure to read
/// them) into the one outcome owed for that path.
pub fn conversion_outcome(path: &String, data: &Option<Vec<u8>>, quality: u8) -> (r:
    ConversionOutcome)
    requires
        quality <= 100,
    ensures
        conversion_step_ok(path@, read_view(*data), quality, r@),
{
    match data {
        None => ConversionOutcome::Failed {
            input: path.clone(),
            error: TransformError::Io.describe(),
        },
        Some(bytes) => match image_to_webp(bytes, quality) {
            Ok(output) => ConversionOutcome::Completed { input: path.clone(), output },
            Err(e) => ConversionOutcome::Failed { input: path.clone(), error: e.describe() },
        },
    }
}

/// Processes one whole conversion request: every submitted path yields
/// exactly one outcome, in submission order, regardless of how any
/// single item fared.
pub fn conversion_outcomes(paths: &Vec<String>, data: &Vec<Option<Vec<u8>>>, quality: u8) -> (r:
    Vec<ConversionOutcome>)
    requires
        paths.len() == data.len(),
        quality <= 100,
    ensures
        r.len() == paths.len(),
        forall|i: int|
            0 <= i < r.len() ==> conversion_step_ok(
                paths[i]@,
                read_view(data[i]),
                quality,
                r[i]@,
            ),
        forall|i: int| 0 <= i < r.len() ==> outcome_input(r[i]@) == paths[i]@,
{
    let mut out: Vec<ConversionOutcome> = Vec::new();
    let mut i: usize = 0;
    while i < paths.len()
        invariant
            paths.len() == data.len(),
            quality <= 100,
            i <= paths.len(),
            out.len() == i,
            forall|j: int|
                0 <= j < i ==> conversion_step_ok(
                    paths[j]@,
                    read_view(data[j]),
                    quality,
                    out[j]@,
                ),
        decreases paths.len() - i,
    {
        let o = conversion_outcome(&paths[i], &data[i], quality);
        out.push(o);
        i = i + 1;
    }
    out
}

} // verus!
