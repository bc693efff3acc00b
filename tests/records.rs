use hanzi_reader::config::TextMode;
use hanzi_reader::error::ReaderError;
use hanzi_reader::scraper::{LinkExtractorType, TextExtractorType};
use hanzi_reader::textbase::{Document, Note};

#[test]
fn document_title_shows_position() {
    let d = Document { id: 3, title: "三国".to_string(), content: String::new(), line: 12, character: 0 };
    assert_eq!(d.title(), "三国 | 12,0");
    assert!(!d.is_empty());
    assert!(Document::default().is_empty());
    let other = Document { id: 3, title: "x".to_string(), ..Document::default() };
    assert!(d == other);
}

#[test]
fn note_position_and_emptiness() {
    let n = Note { id: 1, doc: 2, line: 7, char: 4, text: "注".to_string() };
    assert_eq!(n.pos(), (7, 4));
    assert!(!n.is_empty());
    assert!(Note { doc: 0, ..n.clone() }.is_empty());
    let same_place = Note { id: 9, ..n.clone() };
    assert!(n == same_place);
    let elsewhere = Note { id: 9, line: 8, ..n.clone() };
    assert!(n != elsewhere);
}

#[test]
fn extractor_settings_need_their_fields() {
    let l = LinkExtractorType::PatternExtractor { pattern: "p{}".to_string(), n_chapters: 3, name: String::new() };
    assert!(l.is_empty());
    let l = LinkExtractorType::MainPageExtractor { url: "u".to_string(), pattern: "a".to_string(), name: "n".to_string() };
    assert!(!l.is_empty());
    assert!(!TextExtractorType::CText.is_empty());
    let t = TextExtractorType::PatternTextExtractor { title_pattern: None, pattern: String::new(), name: "n".to_string() };
    assert!(t.is_empty());
}

#[test]
fn reader_error_constructors() {
    assert!(matches!(ReaderError::other("x"), ReaderError::Other(ref s) if s == "x"));
    assert!(matches!(ReaderError::ocr("y"), ReaderError::Ocr(ref s) if s == "y"));
    assert_eq!(TextMode::Raw, TextMode::Raw);
}
