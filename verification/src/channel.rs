//! The log channel: the queue between the readers of the worker's output and
//! the tick that takes the lines over into the log.
//!
//! The queue has no limit. Whoever shares it between threads guards it with
//! a lock; what is stated here holds of each call made under that lock.

use crate::model::texts_of;
use vstd::prelude::*;

verus! {

/// The lines that wait to be taken over, oldest first.
pub struct LogChannel {
    pub waiting: Vec<String>,
}

impl View for LogChannel {
    type V = Seq<Seq<char>>;

    open spec fn view(&self) -> Seq<Seq<char>> {
        texts_of(self.waiting@)
    }
}

impl LogChannel {
    /// A channel in which nothing waits.
    pub fn new() -> (channel: Self)
        ensures
            channel@ == Seq::<Seq<char>>::empty(),
    {
        LogChannel { waiting: Vec::new() }
    }

    /// Puts `line` at the end of the queue. There is always room.
    pub fn send(&mut self, line: String)
        ensures
            final(self)@ == old(self)@.push(line@),
    {
        self.waiting.push(line);
    }

    /// Takes everything that waits, oldest first, and leaves the queue
    /// empty. Where nothing waits, nothing is taken.
    pub fn drain(&mut self) -> (lines: Vec<String>)
        ensures
            texts_of(lines@) == old(self)@,
            final(self)@ == Seq::<Seq<char>>::empty(),
    {
        let mut lines: Vec<String> = Vec::new();
        core::mem::swap(&mut self.waiting, &mut lines);
        lines
    }
}

/// One use of the channel.
pub enum ChannelUse {
    /// A reader sends a line.
    Send(Seq<char>),
    /// The tick takes what waits.
    Drain,
}

/// The lines among `uses` that were sent, in the order of their sending.
pub open spec fn sent(uses: Seq<ChannelUse>) -> Seq<Seq<char>>
    decreases uses.len(),
{
    if uses.len() == 0 {
        Seq::empty()
    } else {
        match uses.last() {
            ChannelUse::Send(line) => sent(uses.drop_last()).push(line),
            ChannelUse::Drain => sent(uses.drop_last()),
        }
    }
}

/// What has been taken from a channel that was empty before `uses`, by all
/// the drains among them together and in their order, and what still waits
/// in it.
pub open spec fn taken_and_waiting(uses: Seq<ChannelUse>) -> (Seq<Seq<char>>, Seq<Seq<char>>)
    decreases uses.len(),
{
    if uses.len() == 0 {
        (Seq::empty(), Seq::empty())
    } else {
        let (taken, waiting) = taken_and_waiting(uses.drop_last());
        match uses.last() {
            ChannelUse::Send(line) => (taken, waiting.push(line)),
            ChannelUse::Drain => (taken + waiting, Seq::empty()),
        }
    }
}

/// The channel loses nothing, adds nothing and keeps the order: whatever
/// the readers send and whenever the tick drains, what has been taken
/// followed by what waits is exactly what was sent, in the order of
/// sending. However long the tick stays away, every line sent still
/// waits: the queue has no limit and turns no line away.
pub proof fn law_channel_keeps_every_line(uses: Seq<ChannelUse>)
    ensures
        taken_and_waiting(uses).0 + taken_and_waiting(uses).1 == sent(uses),
        (forall|i: int| 0 <= i < uses.len() ==> #[trigger] uses[i] is Send) ==> taken_and_waiting(
            uses,
        ).1 == sent(uses),
    decreases uses.len(),
{
    if uses.len() > 0 {
        let before = uses.drop_last();
        law_channel_keeps_every_line(before);
        if forall|i: int| 0 <= i < uses.len() ==> #[trigger] uses[i] is Send {
            assert forall|i: int| 0 <= i < before.len() implies #[trigger] before[i] is Send by {}
        }
    }
}

} // verus!
