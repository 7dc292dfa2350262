use vstd::prelude::*;

use crate::events::LogEvent;

verus! {

/// The ordered queue carrying typed log events from the producers to the
/// single writer. Events leave in exactly the order they entered; nothing is
/// lost and nothing is reordered.
#[derive(Debug)]
pub struct EventChannel {
    queue: Vec<LogEvent>,
}

impl View for EventChannel {
    type V = Seq<LogEvent>;

    closed spec fn view(&self) -> Seq<LogEvent> {
        self.queue@
    }
}

impl EventChannel {
    /// An empty channel.
    pub fn new() -> (r: Self)
        ensures
            r@ == Seq::<LogEvent>::empty(),
    {
        EventChannel { queue: Vec::new() }
    }

    /// Appends one event at the back.
    pub fn send(&mut self, event: LogEvent)
        ensures
            final(self)@ == old(self)@.push(event),
    {
        self.queue.push(event);
    }

    /// Takes the oldest queued event, or nothing when the channel is empty.
    pub fn recv(&mut self) -> (r: Option<LogEvent>)
        ensures
            old(self)@.len() == 0 ==> r is None && *final(self) == *old(self),
            old(self)@.len() > 0 ==> r == Some(old(self)@[0]) && final(self)@ == old(
                self,
            )@.drop_first(),
    {
        if self.queue.len() == 0 {
            None
        } else {
            let ev = self.queue.remove(0);
            proof {
                assert(self.queue@ =~= old(self)@.drop_first());
            }
            Some(ev)
        }
    }

    /// How many events are queued.
    pub fn len(&self) -> (r: usize)
        ensures
            r == self@.len(),
    {
        self.queue.len()
    }

    /// Whether the channel holds no event.
    pub fn is_empty(&self) -> (r: bool)
        ensures
            r == (self@.len() == 0),
    {
        self.queue.len() == 0
    }
}

} // verus!
