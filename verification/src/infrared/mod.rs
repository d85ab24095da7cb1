//! Commands from an NEC infrared remote: the pin-change interrupt feeds the
//! decoder and leaves each decoded command in a one-slot mailbox, which the
//! main loop empties.
use vstd::prelude::*;

pub mod ir_clock;

verus! {

/// The mailbox between the decoding interrupt and the main loop, for
/// commands of type `Cmd` (the firmware's decoder yields NEC commands).
pub struct IrReceiver<Cmd> {
    pending: Option<Cmd>,
}

impl<Cmd> IrReceiver<Cmd> {
    /// The command waiting in the mailbox, if any.
    pub closed spec fn pending_cmd(&self) -> Option<Cmd> {
        self.pending
    }

    /// An empty mailbox.
    pub fn new() -> (r: IrReceiver<Cmd>)
        ensures
            r.pending_cmd() is None,
    {
        IrReceiver { pending: None }
    }

    /// What the pin-change interrupt does with the decoder's answer: a
    /// decoded command replaces whatever waits in the mailbox; no command
    /// yet, or a decoding error, leaves the mailbox as it is.
    pub fn on_decoder_event<E>(&mut self, event: Result<Option<Cmd>, E>)
        ensures
            final(self).pending_cmd() == (match event {
                Ok(Some(cmd)) => Some(cmd),
                _ => old(self).pending_cmd(),
            }),
    {
        match event {
            Ok(Some(cmd)) => {
                self.pending = Some(cmd);
            },
            Ok(None) => {},
            Err(_) => {},
        }
    }

    /// Takes the command out of the mailbox, leaving it empty.
    pub fn get_cmd(&mut self) -> (cmd: Option<Cmd>)
        ensures
            cmd == old(self).pending_cmd(),
            final(self).pending_cmd() is None,
    {
        self.pending.take()
    }
}

} // verus!
