//! Parts of the reader's configuration file.
use vstd::prelude::*;

verus! {

/// API keys of the outside services.
#[derive(Clone, Debug, Default)]
pub struct Keys {
    pub elevenlabs: String,
    pub deepl: String,
}

/// Prompts sent to the AI chat, per task.
#[derive(Clone, Debug, Default)]
pub struct Prompts {
    pub meaning: String,
    pub examples: String,
    pub explain: String,
    pub grammar: String,
    pub summary: String,
}

/// How the text pane shows a document.
#[derive(Clone, Copy, Debug, PartialEq, Eq, Structural)]
pub enum TextMode {
    Raw,
    Md,
}

} // verus!
