use vstd::prelude::*;

use crate::{tcp, udp};

verus! {

/// An event of either engine, tagged with its transport.
#[derive(Clone, Debug, PartialEq, Eq)]
pub enum Event {
    Tcp(tcp::Event),
    Udp(udp::Event),
}

/// What reached the event aggregator: an engine's event, or the signal to stop.
pub enum Arrival {
    Tcp(tcp::Event),
    Udp(udp::Event),
    Close,
}

/// Merges the two engines' events into one stream until told to stop.
pub struct EventManager {
    pub running: bool,
}

impl EventManager {
    pub fn new() -> (r: EventManager)
        ensures
            r.running,
    {
        EventManager { running: true }
    }

    /// The event to hand to the sink for this arrival, if any. Each engine
    /// event is passed on, tagged with its transport, while running; the
    /// close signal stops the aggregator, and nothing is passed on after it.
    pub fn dispatch(&mut self, arrival: Arrival) -> (r: Option<Event>)
        ensures
            !old(self).running ==> r is None && !final(self).running,
            old(self).running ==> match arrival {
                Arrival::Tcp(e) => r == Some(Event::Tcp(e)) && final(self).running,
                Arrival::Udp(e) => r == Some(Event::Udp(e)) && final(self).running,
                Arrival::Close => r is None && !final(self).running,
            },
    {
        if !self.running {
            return None;
        }
        match arrival {
            Arrival::Tcp(e) => Some(Event::Tcp(e)),
            Arrival::Udp(e) => Some(Event::Udp(e)),
            Arrival::Close => {
                self.running = false;
                None
            },
        }
    }
}

} // verus!
