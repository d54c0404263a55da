//! Adapter around the external decode engine.
//!
//! `decode_barcode` shapes one call into the engine: it selects the filtered
//! or unfiltered detection routine and passes a "try harder" hint only when
//! that was requested, so that an absent hint keeps the engine's own default.
//! It performs no retries and no post-processing; the engine's answer is
//! handed back untouched. `classify_decode` then maps that answer onto the
//! session's outcome classification.

use vstd::prelude::*;

use crate::session::DecodeOutcome;

verus! {

/// The engine's decoded result, carried opaquely through the library.
#[verifier::external_type_specification]
#[verifier::external_body]
pub struct ExRXingResult(rxing::RXingResult);

/// The engine's error type; its variants classify what went wrong.
#[verifier::external_type_specification]
pub struct ExExceptions(rxing::Exceptions);

/// Relies on rxing::helpers::detect_in_luma: one detection attempt on a
/// luma8 buffer with the engine's default hints. The engine rejects a zero
/// dimension, and a buffer whose length is not width times height, with an
/// error.
#[verifier::external_body]
fn detect_luma(data: Vec<u8>, width: u32, height: u32) -> (r: Result<
    rxing::RXingResult,
    rxing::Exceptions,
>)
    ensures
        width == 0 || height == 0 ==> r is Err,
        (width as int) * (height as int) != data@.len() ==> r is Err,
{
    rxing::helpers::detect_in_luma(data, width, height, None)
}

/// Relies on rxing::helpers::detect_in_luma_with_hints, with the try-harder
/// hint set: the slower, more exhaustive search. The same rejections as the
/// unfiltered default call.
#[verifier::external_body]
fn detect_luma_try_harder(data: Vec<u8>, width: u32, height: u32) -> (r: Result<
    rxing::RXingResult,
    rxing::Exceptions,
>)
    ensures
        width == 0 || height == 0 ==> r is Err,
        (width as int) * (height as int) != data@.len() ==> r is Err,
{
    let mut hints = rxing::DecodeHints::default();
    hints.TryHarder = Some(true);
    rxing::helpers::detect_in_luma_with_hints(data, width, height, None, &mut hints)
}

/// Relies on rxing::helpers::detect_in_luma_filtered: a detection attempt
/// that runs the engine's image-enhancement pass first, with default hints.
/// The same rejections as the unfiltered call.
#[verifier::external_body]
fn detect_luma_filtered(data: Vec<u8>, width: u32, height: u32) -> (r: Result<
    rxing::RXingResult,
    rxing::Exceptions,
>)
    ensures
        width == 0 || height == 0 ==> r is Err,
        (width as int) * (height as int) != data@.len() ==> r is Err,
{
    rxing::helpers::detect_in_luma_filtered(data, width, height, None)
}

/// Relies on rxing::helpers::detect_in_luma_filtered_with_hints, with the
/// try-harder hint set and the image-enhancement pass. The same rejections
/// as the unfiltered call.
#[verifier::external_body]
fn detect_luma_filtered_try_harder(data: Vec<u8>, width: u32, height: u32) -> (r: Result<
    rxing::RXingResult,
    rxing::Exceptions,
>)
    ensures
        width == 0 || height == 0 ==> r is Err,
        (width as int) * (height as int) != data@.len() ==> r is Err,
{
    let mut hints = rxing::DecodeHints::default();
    hints.TryHarder = Some(true);
    rxing::helpers::detect_in_luma_filtered_with_hints(data, width, height, None, &mut hints)
}

/// Decode a barcode from an array of 8-bit luma data.
///
/// A pure call-shape adapter: `filter_image` selects the filtered or
/// unfiltered detection routine, `try_harder` adds the exhaustive-search hint
/// only when it is `Some(true)`, and the engine's answer is returned
/// untouched. The engine decides success; this function only promises how
/// the call is shaped and that impossible geometry is rejected.
pub fn decode_barcode(
    data: Vec<u8>,
    width: u32,
    height: u32,
    try_harder: Option<bool>,
    filter_image: Option<bool>,
) -> (r: Result<rxing::RXingResult, rxing::Exceptions>)
    ensures
        width == 0 || height == 0 ==> r is Err,
        (width as int) * (height as int) != data@.len() ==> r is Err,
{
    let use_filter = matches!(filter_image, Some(true));
    let use_try_harder = matches!(try_harder, Some(true));
    if use_filter {
        if use_try_harder {
            detect_luma_filtered_try_harder(data, width, height)
        } else {
            detect_luma_filtered(data, width, height)
        }
    } else {
        if use_try_harder {
            detect_luma_try_harder(data, width, height)
        } else {
            detect_luma(data, width, height)
        }
    }
}

/// What `classify_decode` must return for each engine answer: a success
/// is carried as found; a not-found error is the silent, expected case; a
/// format or checksum error means a symbol was found but unparsable; every
/// other error is an unexpected engine failure, carrying the engine's
/// message.
pub open spec fn spec_classified(
    result: Result<rxing::RXingResult, rxing::Exceptions>,
    outcome: DecodeOutcome<rxing::RXingResult>,
) -> bool {
    match result {
        Ok(res) => outcome == DecodeOutcome::Found(res),
        Err(e) => match e {
            rxing::Exceptions::NotFoundException(_) => outcome is NotFound,
            rxing::Exceptions::FormatException(m) => outcome == DecodeOutcome::<
                rxing::RXingResult,
            >::Malformed(m),
            rxing::Exceptions::ChecksumException(m) => outcome == DecodeOutcome::<
                rxing::RXingResult,
            >::Malformed(m),
            rxing::Exceptions::IllegalArgumentException(m) => outcome == DecodeOutcome::<
                rxing::RXingResult,
            >::EngineError(m),
            rxing::Exceptions::UnsupportedOperationException(m) => outcome == DecodeOutcome::<
                rxing::RXingResult,
            >::EngineError(m),
            rxing::Exceptions::IllegalStateException(m) => outcome == DecodeOutcome::<
                rxing::RXingResult,
            >::EngineError(m),
            rxing::Exceptions::ArithmeticException(m) => outcome == DecodeOutcome::<
                rxing::RXingResult,
            >::EngineError(m),
            rxing::Exceptions::ReaderException(m) => outcome == DecodeOutcome::<
                rxing::RXingResult,
            >::EngineError(m),
            rxing::Exceptions::WriterException(m) => outcome == DecodeOutcome::<
                rxing::RXingResult,
            >::EngineError(m),
            rxing::Exceptions::ReedSolomonException(m) => outcome == DecodeOutcome::<
                rxing::RXingResult,
            >::EngineError(m),
            rxing::Exceptions::IndexOutOfBoundsException(m) => outcome == DecodeOutcome::<
                rxing::RXingResult,
            >::EngineError(m),
            rxing::Exceptions::RuntimeException(m) => outcome == DecodeOutcome::<
                rxing::RXingResult,
            >::EngineError(m),
            rxing::Exceptions::ParseException(m) => outcome == DecodeOutcome::<
                rxing::RXingResult,
            >::EngineError(m),
            rxing::Exceptions::ReaderDecodeException() => outcome matches DecodeOutcome::<
                rxing::RXingResult,
            >::EngineError(m) && m@ == Seq::<char>::empty(),
        },
    }
}

/// Maps the engine's answer onto the session's outcome classification,
/// moving the engine's message into the reported failure.
pub fn classify_decode(result: Result<rxing::RXingResult, rxing::Exceptions>) -> (outcome:
    DecodeOutcome<rxing::RXingResult>)
    ensures
        spec_classified(result, outcome),
{
    match result {
        Ok(res) => DecodeOutcome::Found(res),
        Err(e) => match e {
            rxing::Exceptions::NotFoundException(_) => DecodeOutcome::NotFound,
            rxing::Exceptions::FormatException(m) => DecodeOutcome::Malformed(m),
            rxing::Exceptions::ChecksumException(m) => DecodeOutcome::Malformed(m),
            rxing::Exceptions::IllegalArgumentException(m) => DecodeOutcome::EngineError(m),
            rxing::Exceptions::UnsupportedOperationException(m) => DecodeOutcome::EngineError(m),
            rxing::Exceptions::IllegalStateException(m) => DecodeOutcome::EngineError(m),
            rxing::Exceptions::ArithmeticException(m) => DecodeOutcome::EngineError(m),
            rxing::Exceptions::ReaderException(m) => DecodeOutcome::EngineError(m),
            rxing::Exceptions::WriterException(m) => DecodeOutcome::EngineError(m),
            rxing::Exceptions::ReedSolomonException(m) => DecodeOutcome::EngineError(m),
            rxing::Exceptions::IndexOutOfBoundsException(m) => DecodeOutcome::EngineError(m),
            rxing::Exceptions::RuntimeException(m) => DecodeOutcome::EngineError(m),
            rxing::Exceptions::ParseException(m) => DecodeOutcome::EngineError(m),
            rxing::Exceptions::ReaderDecodeException() => DecodeOutcome::EngineError(String::new()),
        },
    }
}

} // verus!
