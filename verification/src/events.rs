//! The events of the cache and the log lines they become.
//!
//! The events come on a stream of their own, apart from the session: the
//! consumer takes each event as it arrives, turns it into one log line, and
//! stops only when the stream ends. It has no part in the session and no
//! access to the cache.

use crate::views::{some_view, texts};
use vstd::prelude::*;
use vstd::string::StringExecFns;

verus! {

/// A stored entry that the cache reports, with its value as JSON text.
#[derive(PartialEq, Eq, Debug)]
pub struct PersistentElement {
    pub topic: String,
    pub uuid: String,
    pub value: String,
    pub deleted: bool,
}

/// A [`PersistentElement`] as a mathematical value.
pub struct PersistentElementView {
    pub topic: Seq<char>,
    pub uuid: Seq<char>,
    pub value: Seq<char>,
    pub deleted: bool,
}

impl View for PersistentElement {
    type V = PersistentElementView;

    open spec fn view(&self) -> PersistentElementView {
        PersistentElementView {
            topic: self.topic@,
            uuid: self.uuid@,
            value: self.value@,
            deleted: self.deleted,
        }
    }
}

/// What the cache tells of its own accord.
#[derive(PartialEq, Eq, Debug)]
pub enum Event {
    /// These peers are ready.
    ReadyPeers(Vec<String>),
    /// A volatile message arrived; it is given as JSON text.
    VolatileData(String),
    /// A stored entry arrived or changed.
    PersistentData(PersistentElement),
}

/// An [`Event`] as a mathematical value.
pub enum EventView {
    ReadyPeers(Seq<Seq<char>>),
    VolatileData(Seq<char>),
    PersistentData(PersistentElementView),
}

impl View for Event {
    type V = EventView;

    open spec fn view(&self) -> EventView {
        match self {
            Event::ReadyPeers(peers) => EventView::ReadyPeers(texts(peers@)),
            Event::VolatileData(data) => EventView::VolatileData(data@),
            Event::PersistentData(element) => EventView::PersistentData(element@),
        }
    }
}

/// The views of a list of events.
pub open spec fn event_views(events: Seq<Event>) -> Seq<EventView> {
    Seq::new(events.len(), |i: int| events[i]@)
}

/// The items of a list, one after the other, with `", "` between each two.
pub open spec fn listed(items: Seq<Seq<char>>) -> Seq<char>
    decreases items.len(),
{
    if items.len() == 0 {
        Seq::empty()
    } else if items.len() == 1 {
        items[0]
    } else {
        listed(items.drop_last()) + ", "@ + items.last()
    }
}

/// The log line of an event. Each kind of event has an opening of its own.
pub open spec fn log_line(event: EventView) -> Seq<char> {
    match event {
        EventView::ReadyPeers(peers) => "Peers ready "@ + listed(peers),
        EventView::VolatileData(data) => "Got data "@ + data,
        EventView::PersistentData(element) => "Got elem "@ + element.topic + " "@ + element.uuid
            + " "@ + element.value + (if element.deleted {
            " (deleted)"@
        } else {
            Seq::empty()
        }),
    }
}

/// The log lines of a run of events: one line for each event, in the order
/// in which the events came.
pub open spec fn log_lines(events: Seq<EventView>) -> Seq<Seq<char>> {
    Seq::new(events.len(), |i: int| log_line(events[i]))
}

/// Writes the log line of an event.
pub fn describe(event: &Event) -> (r: String)
    ensures
        r@ == log_line(event@),
{
    match event {
        Event::ReadyPeers(peers) => {
            let mut out = "Peers ready ".to_owned();
            let ghost all = texts(peers@);
            let ghost opening = out@;
            let mut i: usize = 0;
            while i < peers.len()
                invariant
                    i <= peers@.len(),
                    all == texts(peers@),
                    out@ == opening + listed(all.take(i as int)),
                decreases peers@.len() - i,
            {
                if i > 0 {
                    out.append(", ");
                }
                out.append(peers[i].as_str());
                proof {
                    assert(all.take(i + 1).drop_last() =~= all.take(i as int));
                }
                i = i + 1;
            }
            assert(all.take(i as int) =~= all);
            out
        },
        Event::VolatileData(data) => {
            let mut out = "Got data ".to_owned();
            out.append(data.as_str());
            out
        },
        Event::PersistentData(element) => {
            let mut out = "Got elem ".to_owned();
            out.append(element.topic.as_str());
            out.append(" ");
            out.append(element.uuid.as_str());
            out.append(" ");
            out.append(element.value.as_str());
            if element.deleted {
                out.append(" (deleted)");
            }
            out
        },
    }
}

/// Whether the consumer still listens to the stream.
#[derive(Clone, Copy, PartialEq, Eq, Debug, Structural)]
pub enum Consumer {
    Listening,
    Stopped,
}

/// What the consumer makes of what the stream gave: an event is logged and
/// the consumer goes on listening; the end of the stream stops it; once
/// stopped it logs nothing.
pub open spec fn observed(state: Consumer, pulled: Option<EventView>) -> (
    Consumer,
    Option<Seq<char>>,
) {
    match (state, pulled) {
        (Consumer::Listening, Some(event)) => (Consumer::Listening, Some(log_line(event))),
        _ => (Consumer::Stopped, None),
    }
}

impl Consumer {
    /// Takes what the stream gave: `Some` for an event, `None` for its end.
    /// Returns the line to log, if there is one.
    pub fn observe(&mut self, pulled: Option<&Event>) -> (r: Option<String>)
        ensures
            *final(self) == observed(*old(self), some_view(pulled)).0,
            some_view(r) == observed(*old(self), some_view(pulled)).1,
    {
        match (*self, pulled) {
            (Consumer::Listening, Some(event)) => Some(describe(event)),
            _ => {
                *self = Consumer::Stopped;
                None
            },
        }
    }
}

/// Logs a run of events: one line for each, in the order of the events.
pub fn drain(events: &Vec<Event>) -> (r: Vec<String>)
    ensures
        texts(r@) == log_lines(event_views(events@)),
{
    let mut lines: Vec<String> = Vec::new();
    let mut consumer = Consumer::Listening;
    let mut i: usize = 0;
    while i < events.len()
        invariant
            i <= events@.len(),
            consumer == Consumer::Listening,
            lines@.len() == i,
            forall|k: int| 0 <= k < i ==> (#[trigger] lines@[k])@ == log_line(events@[k]@),
        decreases events@.len() - i,
    {
        match consumer.observe(Some(&events[i])) {
            Some(line) => {
                lines.push(line);
            },
            None => {},
        }
        i = i + 1;
    }
    lines
}

} // verus!
