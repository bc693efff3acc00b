//! On-device OCR pipeline of a Chinese reading tool: geometry of the
//! detection input, text-region extraction from the detector's probability
//! map, CTC decoding of the recogniser's output, and the orchestration that
//! turns one image into one string. Beside it, the plain records that the
//! reader keeps (documents, notes, settings).
pub mod config;
pub mod det;
pub mod error;
pub mod geometry;
pub mod pipeline;
pub mod raster;
pub mod rec;
pub mod scraper;
pub mod textbase;
