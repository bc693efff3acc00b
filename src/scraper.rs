//! Settings of the web scraper that imports books into the text store.
use vstd::prelude::*;

verus! {

/// How the scraper finds the chapter pages of a book.
#[derive(Clone, Debug)]
pub enum LinkExtractorType {
    /// Chapter URLs made from a pattern by putting 1 to `n_chapters` in
    /// place of `{}`.
    PatternExtractor { pattern: String, n_chapters: usize, name: String },
    /// Chapter URLs read from the links of a main page.
    MainPageExtractor { url: String, pattern: String, name: String },
}

/// How the scraper reads the text of a chapter page.
#[derive(Clone, Debug)]
pub enum TextExtractorType {
    /// Title and paragraphs picked by CSS selectors.
    PatternTextExtractor { title_pattern: Option<String>, pattern: String, name: String },
    /// The layout of ctext.org.
    CText,
}

/// Commands to a running scraper.
#[derive(Clone, Debug)]
pub enum ScraperCommand {
    Start { name: String, interval: u64, l_ext: LinkExtractorType, t_ext: TextExtractorType },
    AdjustInterval(u64),
    Stop,
}

impl LinkExtractorType {
    /// Whether a field that the extractor needs is still blank.
    pub fn is_empty(&self) -> (r: bool)
        ensures
            r == match self {
                LinkExtractorType::PatternExtractor { pattern, name, .. } => pattern@.len() == 0
                    || name@.len() == 0,
                LinkExtractorType::MainPageExtractor { url, pattern, name } => url@.len() == 0
                    || pattern@.len() == 0 || name@.len() == 0,
            },
    {
        match self {
            LinkExtractorType::PatternExtractor { pattern, name, .. } => pattern.as_str().unicode_len()
                == 0 || name.as_str().unicode_len() == 0,
            LinkExtractorType::MainPageExtractor { url, pattern, name } => url.as_str().unicode_len()
                == 0 || pattern.as_str().unicode_len() == 0 || name.as_str().unicode_len() == 0,
        }
    }
}

impl TextExtractorType {
    /// Whether a field that the extractor needs is still blank.
    pub fn is_empty(&self) -> (r: bool)
        ensures
            r == match self {
                TextExtractorType::PatternTextExtractor { pattern, name, .. } => pattern@.len() == 0
                    || name@.len() == 0,
                TextExtractorType::CText => false,
            },
    {
        match self {
            TextExtractorType::PatternTextExtractor { pattern, name, .. } => pattern.as_str().unicode_len()
                == 0 || name.as_str().unicode_len() == 0,
            TextExtractorType::CText => false,
        }
    }
}

} // verus!
