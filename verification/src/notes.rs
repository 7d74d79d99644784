//! Lines for the terminal that go with a decision.

use vstd::prelude::*;
use crate::text::owned;

verus! {

/// Where a line goes.
#[derive(Clone, Copy, Debug, PartialEq, Eq, Structural)]
pub enum Stream {
    Output,
    Error,
}

/// One line for the terminal.
#[derive(Debug)]
pub struct Note {
    pub stream: Stream,
    pub text: String,
}

#[verifier::ext_equal]
pub struct NoteView {
    pub stream: Stream,
    pub text: Seq<char>,
}

impl View for Note {
    type V = NoteView;

    open spec fn view(&self) -> NoteView {
        NoteView { stream: self.stream, text: self.text@ }
    }
}

/// The lines in a list.
pub open spec fn lines(list: Seq<Note>) -> Seq<NoteView> {
    list.map_values(|n: Note| n@)
}

/// An ordinary line.
pub open spec fn out(text: Seq<char>) -> NoteView {
    NoteView { stream: Stream::Output, text }
}

/// A line for the error stream.
pub open spec fn err(text: Seq<char>) -> NoteView {
    NoteView { stream: Stream::Error, text }
}

/// Adds an ordinary line.
pub fn say(notes: &mut Vec<Note>, text: String)
    ensures
        lines(final(notes)@) == lines(old(notes)@).push(out(text@)),
{
    let ghost was = notes@;
    notes.push(Note { stream: Stream::Output, text });
    assert(lines(notes@) =~= lines(was).push(out(text@)));
}

/// Adds a line for the error stream.
pub fn warn(notes: &mut Vec<Note>, text: String)
    ensures
        lines(final(notes)@) == lines(old(notes)@).push(err(text@)),
{
    let ghost was = notes@;
    notes.push(Note { stream: Stream::Error, text });
    assert(lines(notes@) =~= lines(was).push(err(text@)));
}

/// No lines yet.
pub fn no_notes() -> (notes: Vec<Note>)
    ensures
        lines(notes@) == Seq::<NoteView>::empty(),
{
    let notes: Vec<Note> = Vec::new();
    assert(lines(notes@) =~= Seq::<NoteView>::empty());
    notes
}

/// A single ordinary line.
pub fn one_line(text: &str) -> (notes: Vec<Note>)
    ensures
        lines(notes@) == seq![out(text@)],
{
    let mut notes: Vec<Note> = no_notes();
    say(&mut notes, owned(text));
    assert(lines(notes@) =~= seq![out(text@)]);
    notes
}

} // verus!
