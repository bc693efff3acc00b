//! Records of the reader's text store: documents and the notes on them.
use vstd::prelude::*;

use crate::rec::push_char;

verus! {

/// A stored text and the reading position in it.
#[derive(Clone, Default, Debug)]
pub struct Document {
    pub id: u32,
    pub title: String,
    pub content: String,
    pub line: usize,
    pub character: usize,
}

/// A note attached to a position of a document.
#[derive(Clone, Default, Debug)]
pub struct Note {
    pub id: u32,
    pub doc: u32,
    pub line: usize,
    pub char: usize,
    pub text: String,
}

/// The decimal digit for `d`.
pub open spec fn digit_char(d: nat) -> char {
    (('0' as nat) + d) as char
}

/// `n` written in decimal, without leading zeros.
pub open spec fn decimal(n: nat) -> Seq<char>
    decreases n,
{
    if n < 10 {
        seq![digit_char(n)]
    } else {
        decimal(n / 10).push(digit_char(n % 10))
    }
}

fn push_decimal(s: &mut String, n: usize)
    ensures
        final(s)@ == old(s)@ + decimal(n as nat),
    decreases n,
{
    if n >= 10 {
        push_decimal(s, n / 10);
    }
    let d = (n % 10) as u32;
    let c = ('0' as u32 + d) as u8 as char;
    push_char(s, c);
    proof {
        assert(c == digit_char((n % 10) as nat));
    }
}

impl Document {
    /// A document that was never stored has id 0.
    pub fn is_empty(&self) -> (r: bool)
        ensures
            r == (self.id == 0),
    {
        self.id == 0
    }

    /// The title with the reading position: `"<title> | <line>,<character>"`.
    pub fn title(&self) -> (r: String)
        ensures
            r@ == self.title@ + " | "@ + decimal(self.line as nat) + ","@ + decimal(
                self.character as nat,
            ),
    {
        let mut r = self.title.clone();
        r.append(" | ");
        push_decimal(&mut r, self.line);
        r.append(",");
        push_decimal(&mut r, self.character);
        r
    }
}

impl PartialEq for Document {
    fn eq(&self, d: &Document) -> (r: bool) {
        self.id == d.id
    }
}

impl vstd::std_specs::cmp::PartialEqSpecImpl for Document {
    open spec fn obeys_eq_spec() -> bool {
        true
    }

    open spec fn eq_spec(&self, d: &Document) -> bool {
        self.id == d.id
    }
}

impl Note {
    /// A note without an id or without a document is not stored.
    pub fn is_empty(&self) -> (r: bool)
        ensures
            r == (self.id == 0 || self.doc == 0),
    {
        self.id == 0 || self.doc == 0
    }

    /// Line and character of the note's position.
    pub fn pos(&self) -> (r: (usize, usize))
        ensures
            r == (self.line, self.char),
    {
        (self.line, self.char)
    }
}

impl PartialEq for Note {
    fn eq(&self, d: &Note) -> (r: bool) {
        self.id == d.id || (self.doc == d.doc && self.line == d.line && self.char == d.char)
    }
}

impl vstd::std_specs::cmp::PartialEqSpecImpl for Note {
    open spec fn obeys_eq_spec() -> bool {
        true
    }

    open spec fn eq_spec(&self, d: &Note) -> bool {
        self.id == d.id || (self.doc == d.doc && self.line == d.line && self.char == d.char)
    }
}

} // verus!
