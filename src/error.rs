//! Error kinds of the OCR pipeline and of the reader application.
use vstd::prelude::*;

verus! {

/// Why an OCR call failed; each kind carries a message for the operator.
#[derive(Clone, Debug, PartialEq, Eq)]
pub enum OcrError {
    /// The input bytes are not a decodable raster image.
    ImageDecode(String),
    /// A model or dictionary file is missing, unreadable or not a valid
    /// network.
    ModelLoad(String),
    /// A buffer handed to or returned by a network has the wrong shape.
    Tensor(String),
    /// The inference runtime failed during a forward pass.
    Inference(String),
}

/// Errors of the reader application, by the subsystem that raised them.
#[derive(Clone, Debug)]
pub enum ReaderError {
    Sqlite(String),
    Ai(String),
    Image(String),
    Io(String),
    Ocr(String),
    Other(String),
    Scraper(String),
}

impl ReaderError {
    /// A general error with the given message.
    pub fn other(s: &str) -> (r: Self)
        ensures
            r matches ReaderError::Other(m) && m@ == s@,
    {
        ReaderError::Other(String::from_str(s))
    }

    /// An OCR error with the given message.
    pub fn ocr(s: &str) -> (r: Self)
        ensures
            r matches ReaderError::Ocr(m) && m@ == s@,
    {
        ReaderError::Ocr(String::from_str(s))
    }
}

} // verus!
