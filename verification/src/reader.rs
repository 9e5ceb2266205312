//! Reading one of the worker's output streams: which lines go on to the log
//! channel, and when the reading ends.

use crate::model::text_of;
use vstd::prelude::*;
use vstd::string::*;

verus! {

/// What one attempt to read a line from the stream brought.
#[derive(Clone, Debug, PartialEq, Eq)]
pub enum LineRead {
    /// A line, without its line end.
    Line(String),
    /// The stream is at its end.
    End,
    /// The read failed. The reason is of no interest: a stream that cannot
    /// be read counts as closed.
    Failed,
}

/// `LineRead` with its text as a sequence of characters.
pub enum LineReadView {
    Line(Seq<char>),
    End,
    Failed,
}

impl View for LineRead {
    type V = LineReadView;

    open spec fn view(&self) -> LineReadView {
        match self {
            LineRead::Line(line) => LineReadView::Line(line@),
            LineRead::End => LineReadView::End,
            LineRead::Failed => LineReadView::Failed,
        }
    }
}

/// The lines that go on to the channel when the reads come in this order:
/// those before the first read that brought none.
pub open spec fn forwarded(reads: Seq<LineReadView>) -> Seq<Seq<char>>
    decreases reads.len(),
{
    if reads.len() == 0 {
        Seq::empty()
    } else {
        match reads.first() {
            LineReadView::Line(line) => seq![line] + forwarded(reads.drop_first()),
            _ => Seq::empty(),
        }
    }
}

/// All of `reads` brought a line.
pub open spec fn all_lines(reads: Seq<LineReadView>) -> bool {
    forall|i: int| 0 <= i < reads.len() ==> #[trigger] reads[i] is Line
}

/// The reader of one stream. It is open until a read brings no line.
#[derive(Clone, Copy, Debug, PartialEq, Eq, Structural)]
pub struct StreamReader {
    pub open: bool,
}

impl StreamReader {
    /// The reader after `read`, and the line to send on, if there is one: a
    /// line read while the reader is open. Anything else closes the reader.
    pub open spec fn fed(self, read: LineReadView) -> (StreamReader, Option<Seq<char>>) {
        match read {
            LineReadView::Line(line) => if self.open {
                (self, Some(line))
            } else {
                (self, None)
            },
            _ => (StreamReader { open: false }, None),
        }
    }

    /// The reader after `reads`, and the lines it has sent on, in order.
    pub open spec fn fed_all(self, reads: Seq<LineReadView>) -> (StreamReader, Seq<Seq<char>>)
        decreases reads.len(),
    {
        if reads.len() == 0 {
            (self, Seq::empty())
        } else {
            let (before, sent) = self.fed_all(reads.drop_last());
            let (after, line) = before.fed(reads.last());
            (
                after,
                match line {
                    Some(line) => sent.push(line),
                    None => sent,
                },
            )
        }
    }

    /// A reader at the start of its stream.
    pub fn new() -> (reader: Self)
        ensures
            reader.open,
    {
        StreamReader { open: true }
    }

    /// Whether there is anything left to read.
    pub fn is_open(&self) -> (open: bool)
        ensures
            open == self.open,
    {
        self.open
    }

    /// Takes what a read brought. A line read while the reader is open is
    /// handed back, to be sent on; anything else closes the reader.
    pub fn feed(&mut self, read: LineRead) -> (line: Option<String>)
        ensures
            *final(self) == old(self).fed(read@).0,
            text_of(line) == old(self).fed(read@).1,
    {
        match read {
            LineRead::Line(line) => {
                if self.open {
                    Some(line)
                } else {
                    None
                }
            },
            _ => {
                self.open = false;
                None
            },
        }
    }
}

/// One more read: while all reads so far brought lines, a line adds itself
/// to what is forwarded, and anything else adds nothing.
pub proof fn lemma_forwarded_push(reads: Seq<LineReadView>, read: LineReadView)
    ensures
        forwarded(reads.push(read)) == if all_lines(reads) && read is Line {
            forwarded(reads).push(read->Line_0)
        } else {
            forwarded(reads)
        },
        all_lines(reads.push(read)) == (all_lines(reads) && read is Line),
    decreases reads.len(),
{
    let longer = reads.push(read);
    if reads.len() == 0 {
        assert(forwarded(longer.drop_first()) =~= Seq::empty());
    } else {
        let rest = reads.drop_first();
        assert(longer.drop_first() =~= rest.push(read));
        lemma_forwarded_push(rest, read);
        if reads.first() is Line {
            assert(all_lines(reads) == all_lines(rest)) by {
                if all_lines(rest) {
                    assert forall|i: int| 0 <= i < reads.len() implies #[trigger] reads[i]
                        is Line by {
                        if i > 0 {
                            assert(reads[i] == rest[i - 1]);
                        }
                    }
                }
                if all_lines(reads) {
                    assert forall|i: int| 0 <= i < rest.len() implies (#[trigger] rest[i])
                        is Line by {}
                }
            }
        }
    }
    if all_lines(reads) && read is Line {
        assert forall|i: int| 0 <= i < longer.len() implies #[trigger] longer[i] is Line by {}
    } else if read is Line {
        // some earlier read brought no line, and it is among the longer ones too
        let i = choose|i: int| 0 <= i < reads.len() && !(#[trigger] reads[i] is Line);
    }
}

/// A reader keeps the order of its stream and loses nothing before the
/// stream closes: of what is read, the lines before the first read that
/// brings none are sent on, in their order, and nothing else; the reader
/// is open as long as every read has brought a line.
pub proof fn law_reader_forwards_in_order(reads: Seq<LineReadView>)
    ensures
        (StreamReader { open: true }).fed_all(reads) == (
            StreamReader { open: all_lines(reads) },
            forwarded(reads),
        ),
    decreases reads.len(),
{
    if reads.len() > 0 {
        law_reader_forwards_in_order(reads.drop_last());
        lemma_forwarded_push(reads.drop_last(), reads.last());
        assert(reads.drop_last().push(reads.last()) =~= reads);
    }
}

} // verus!
