//! Text recognition around the recognition network: its character
//! dictionary, and greedy CTC decoding of its per-step output.
use vstd::prelude::*;

use crate::error::OcrError;

verus! {

/// Relies on `String::push`: appends one character.
#[verifier::external_body]
pub(crate) fn push_char(s: &mut String, c: char)
    ensures
        final(s)@ == old(s)@.push(c),
{
    s.push(c)
}

/// Scan of `s` for line breaks: the lines closed by a `'\n'` so far, and
/// the text after the last one.
pub open spec fn split_lines(s: Seq<char>) -> (Seq<Seq<char>>, Seq<char>)
    decreases s.len(),
{
    if s.len() == 0 {
        (seq![], seq![])
    } else {
        let prev = split_lines(s.drop_last());
        if s.last() == '\n' {
            (prev.0.push(prev.1), seq![])
        } else {
            (prev.0, prev.1.push(s.last()))
        }
    }
}

/// The lines of `s`: its pieces between `'\n'` characters, without a last
/// empty piece after a final line break.
pub open spec fn lines_of(s: Seq<char>) -> Seq<Seq<char>> {
    let sp = split_lines(s);
    if sp.1.len() > 0 {
        sp.0.push(sp.1)
    } else {
        sp.0
    }
}

/// The recogniser's classes for a dictionary file: class 0 is the CTC
/// blank, then one class per line of the file, then the space.
pub open spec fn dictionary_of(text: Seq<char>) -> Seq<Seq<char>> {
    seq![Seq::<char>::empty()] + lines_of(text) + seq![seq![' ']]
}

/// What the library sees of a list of strings.
pub open spec fn string_views(keys: Seq<String>) -> Seq<Seq<char>> {
    keys.map_values(|k: String| k@)
}

/// Builds the class table of the recognition network from its dictionary
/// file: blank, one entry per line, space.
pub fn parse_dictionary(text: &str) -> (keys: Vec<String>)
    ensures
        string_views(keys@) == dictionary_of(text@),
{
    let mut keys: Vec<String> = Vec::new();
    keys.push(String::new());
    let mut cur = String::new();
    let mut open_line = false;
    let ghost s = text@;
    proof {
        assert(s.take(0) =~= Seq::<char>::empty());
        assert(string_views(keys@) =~= seq![Seq::<char>::empty()] + split_lines(s.take(0)).0);
    }
    for c in it: text.chars()
        invariant
            s == text@,
            it.seq() == s,
            string_views(keys@) == seq![Seq::<char>::empty()] + split_lines(s.take(it.index() as int)).0,
            cur@ == split_lines(s.take(it.index() as int)).1,
            open_line == (cur@.len() > 0),
    {
        let ghost i = it.index() as int;
        proof {
            assert(s.take(i + 1).drop_last() =~= s.take(i));
            assert(s.take(i + 1).last() == c);
        }
        if c == '\n' {
            let ghost before = keys@;
            let line = cur;
            keys.push(line);
            assert(string_views(keys@) =~= string_views(before).push(split_lines(s.take(i)).1));
            cur = String::new();
            open_line = false;
            proof {
                assert(string_views(keys@) =~= seq![Seq::<char>::empty()] + split_lines(s.take(i + 1)).0);
            }
        } else {
            push_char(&mut cur, c);
            open_line = true;
        }
    }
    proof {
        assert(s.take(s.len() as int) =~= s);
    }
    let ghost scanned = keys@;
    if open_line {
        keys.push(cur);
        assert(string_views(keys@) =~= string_views(scanned).push(split_lines(s).1));
    }
    let ghost lined = keys@;
    let mut space = String::new();
    push_char(&mut space, ' ');
    keys.push(space);
    assert(string_views(keys@) =~= string_views(lined).push(seq![' ']));
    assert(string_views(keys@) =~= dictionary_of(text@));
    keys
}

/// The recognition network's best class at one time step, and whether its
/// score reached the recogniser's minimum.
#[derive(Clone, Copy, Debug, PartialEq, Eq, Structural)]
pub struct CtcStep {
    pub class: usize,
    pub accepted: bool,
}

/// Step `t` yields a character: it is no blank, does not repeat the class of
/// the step before, and was confident enough.
pub open spec fn emits(steps: Seq<CtcStep>, t: int) -> bool {
    &&& steps[t].class != 0
    &&& (t == 0 || steps[t - 1].class != steps[t].class)
    &&& steps[t].accepted
}

/// Greedy CTC decoding: the dictionary entries of the emitting steps, in
/// order.
pub open spec fn ctc_text(steps: Seq<CtcStep>, keys: Seq<Seq<char>>) -> Seq<char>
    decreases steps.len(),
{
    if steps.len() == 0 {
        seq![]
    } else {
        let t = steps.len() - 1;
        let prev = ctc_text(steps.drop_last(), keys);
        if emits(steps, t) {
            prev + keys[steps[t].class as int]
        } else {
            prev
        }
    }
}

/// Every step names a class of a table with `n` entries.
pub open spec fn classes_in_range(steps: Seq<CtcStep>, n: int) -> bool {
    forall|t: int| 0 <= t < steps.len() ==> (#[trigger] steps[t]).class < n
}

/// Decodes the recognition network's output for one region: blanks and
/// repeats collapse, steps under the minimum score are left out, and the
/// rest are looked up in the class table. A class outside the table is a
/// tensor error; an empty text is a valid result.
pub fn decode_ctc(steps: &Vec<CtcStep>, keys: &Vec<String>) -> (r: Result<String, OcrError>)
    ensures
        r is Ok <==> classes_in_range(steps@, keys@.len() as int),
        r matches Ok(text) ==> text@ == ctc_text(steps@, string_views(keys@)),
        r matches Err(e) ==> e is Tensor,
{
    let mut out = String::new();
    let mut i: usize = 0;
    assert(steps@.take(0) =~= Seq::<CtcStep>::empty());
    while i < steps.len()
        invariant
            i <= steps@.len(),
            classes_in_range(steps@.take(i as int), keys@.len() as int),
            out@ == ctc_text(steps@.take(i as int), string_views(keys@)),
        decreases steps@.len() - i,
    {
        let step = steps[i];
        let ghost upto = steps@.take(i + 1);
        assert(upto.drop_last() =~= steps@.take(i as int));
        if step.class >= keys.len() {
            assert(!classes_in_range(steps@, keys@.len() as int)) by {
                assert(steps@[i as int].class >= keys@.len());
            }
            return Err(OcrError::Tensor(String::from_str("recognition class outside the dictionary")));
        }
        if step.class != 0 && (i == 0 || steps[i - 1].class != step.class) && step.accepted {
            out.append(keys[step.class].as_str());
        }
        assert(emits(upto, i as int) == emits(steps@, i as int));
        i += 1;
    }
    assert(steps@.take(steps@.len() as int) =~= steps@);
    Ok(out)
}

} // verus!
