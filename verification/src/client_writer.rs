//! The service's last writer: it forwards each passed-on event to the
//! injector process as an update message.
use vstd::prelude::*;
use crate::event::Event;

verus! {

/// A message from the service to the injector process.
#[derive(Clone, Copy, Debug, PartialEq, Eq, Structural)]
pub enum Update {
    /// An event of device `id`.
    Event { id: usize, event: Event },
    /// A keep-alive.
    Ping,
}

/// Forwards events to the injector process through `writer`.
pub struct ClientWriter<W> {
    writer: W,
}

impl<W> ClientWriter<W> {
    /// The channel to the injector process.
    pub closed spec fn inner(&self) -> W {
        self.writer
    }

    pub fn new(writer: W) -> (r: Self)
        ensures
            r.inner() == writer,
    {
        ClientWriter { writer: writer }
    }

    /// The channel to the injector process, to send an update on.
    pub fn writer_mut(&mut self) -> (r: &mut W)
        ensures
            *r == old(self).inner(),
            final(self).inner() == *final(r),
    {
        &mut self.writer
    }

    /// The update that forwards `event` of device `id`.
    pub fn event(&self, id: usize, event: Event) -> (r: Update)
        ensures
            r == (Update::Event { id, event }),
    {
        Update::Event { id, event }
    }
}

} // verus!
