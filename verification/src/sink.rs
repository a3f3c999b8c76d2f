use vstd::prelude::*;

verus! {

/// Where the generic sink writes what it receives.
#[derive(Clone, Copy, PartialEq, Eq, Structural, Debug)]
pub enum SinkDestination {
    Stdout,
    File,
}

/// The state of the generic sink: the file it writes to, if the node was
/// configured with one. `F` is the handle of that file.
#[derive(Clone, Debug)]
pub struct SinkState<F> {
    pub file: Option<F>,
}

/// The line between the separators of a report: the fixed prefix, then what
/// was received, as it prints.
pub open spec fn report_line(received: Seq<char>) -> Seq<char> {
    "Example Generic Sink Received -> "@ + received
}

/// The separator that opens and closes a report.
pub open spec fn separator() -> Seq<char> {
    "#######"@
}

/// Where a sink in state `s` writes: to its file when it holds one, else to
/// standard output.
pub open spec fn destination_of<F>(s: SinkState<F>) -> SinkDestination {
    if s.file is Some {
        SinkDestination::File
    } else {
        SinkDestination::Stdout
    }
}

impl<F> SinkState<F> {
    /// The state of a sink that writes to `file`, or to standard output when
    /// there is none.
    pub fn new(file: Option<F>) -> (s: Self)
        ensures
            s.file == file,
    {
        SinkState { file }
    }

    /// Where the next report goes.
    pub fn destination(&self) -> (d: SinkDestination)
        ensures
            d == destination_of(*self),
    {
        match &self.file {
            Some(_) => SinkDestination::File,
            None => SinkDestination::Stdout,
        }
    }

    /// Finalizing a sink releases its file; later reports go to standard
    /// output.
    pub fn finalize(&mut self)
        ensures
            final(self).file is None,
    {
        self.file = None;
    }
}

/// The three lines the sink writes for one received message, given the
/// message as it prints.
pub fn report_lines(received: &str) -> (lines: Vec<String>)
    ensures
        lines@.len() == 3,
        lines@[0]@ == separator(),
        lines@[1]@ == report_line(received@),
        lines@[2]@ == separator(),
{
    let mut lines: Vec<String> = Vec::new();
    lines.push(String::from_str("#######"));
    let mut middle = String::from_str("Example Generic Sink Received -> ");
    middle.append(received);
    lines.push(middle);
    lines.push(String::from_str("#######"));
    lines
}

/// A finalized sink writes to standard output, and finalizing it again
/// leaves it as it is.
pub proof fn lemma_finalized_sink_prints<F>(finalized: SinkState<F>, again: SinkState<F>)
    requires
        finalized.file is None,
        again.file is None,
    ensures
        destination_of(finalized) == SinkDestination::Stdout,
        destination_of(again) == destination_of(finalized),
        again == finalized,
{
}

/// The middle line of a report is the fixed 33-character prefix followed by
/// the whole received text, whatever its length.
pub proof fn lemma_report_line_keeps_message(received: Seq<char>)
    ensures
        report_line(received).len() == 33 + received.len(),
        report_line(received).subrange(0, 33) == seq![
            'E', 'x', 'a', 'm', 'p', 'l', 'e', ' ', 'G', 'e', 'n', 'e', 'r', 'i', 'c', ' ',
            'S', 'i', 'n', 'k', ' ', 'R', 'e', 'c', 'e', 'i', 'v', 'e', 'd', ' ', '-', '>', ' ',
        ],
        report_line(received).subrange(33, 33 + received.len() as int) == received,
{
    reveal_strlit("Example Generic Sink Received -> ");
    let l = report_line(received);
    assert(l.subrange(33, 33 + received.len() as int) =~= received);
    assert(l.subrange(0, 33) =~= seq![
        'E', 'x', 'a', 'm', 'p', 'l', 'e', ' ', 'G', 'e', 'n', 'e', 'r', 'i', 'c', ' ',
        'S', 'i', 'n', 'k', ' ', 'R', 'e', 'c', 'e', 'i', 'v', 'e', 'd', ' ', '-', '>', ' ',
    ]);
}

} // verus!
