//! The link actor: the state machine that owns the serial connection.
//!
//! One dedicated context holds the physical link and runs the read loop;
//! the consumer context issues commands over a channel and receives decoded
//! packets over another. The loop itself performs I/O and therefore lives
//! with the caller; every decision it takes — whether to open, keep reading,
//! close, or exit — is computed here, as a verified transition over the
//! actor's state, from the event the caller observed.

use vstd::prelude::*;

use crate::decode::{assemble_frame, decode_yields, read_integer_from_serial,
    read_string_from_serial};
use crate::packet::{Packet, PacketData, PacketKind};

verus! {

/// A message from the consumer to the link actor: start reading from a port
/// at a baud rate, a decoded packet travelling the other way, or an order to
/// drop the link.
#[derive(Debug, Clone)]
pub enum ThreadMSG {
    Start(String, usize),
    Data(PacketData),
    Disconnect(),
}

/// The actor's position in its lifecycle: no link held, link open and
/// reading, or link about to be released.
#[derive(Debug, Clone, Copy, PartialEq, Eq, Structural)]
pub enum ActorState {
    Idle,
    Connected,
    Stopping,
}

/// What one non-blocking look at the command channel found.
#[derive(Debug, Clone)]
pub enum CommandPoll {
    Received(ThreadMSG),
    Empty,
    Closed,
}

/// What the caller must do next with the physical link.
#[derive(Debug, Clone)]
pub enum LinkAction {
    OpenPort(String, usize),
    CloseLink,
    ExitThread,
    Continue,
}

/// Why a connection attempt was refused.
#[derive(Debug, Clone, Copy, PartialEq, Eq, Structural)]
pub enum LinkError {
    PortUnavailable,
    AlreadyActive,
}

/// The state the actor moves to after one look at the command channel:
/// a severed channel or a disconnect received while connected begins the
/// stop; everything else leaves the state alone.
pub open spec fn poll_next_state(state: ActorState, poll: CommandPoll) -> ActorState {
    match poll {
        CommandPoll::Empty => state,
        CommandPoll::Closed => ActorState::Stopping,
        CommandPoll::Received(msg) => match msg {
            ThreadMSG::Disconnect() => if state is Connected {
                ActorState::Stopping
            } else {
                state
            },
            _ => state,
        },
    }
}

/// The action one look at the command channel asks of the caller: close the
/// link on a disconnect received while connected, exit outright when the
/// channel is severed, open a port on a start request received while idle.
pub open spec fn poll_action_of(state: ActorState, poll: CommandPoll) -> LinkAction {
    match poll {
        CommandPoll::Empty => LinkAction::Continue,
        CommandPoll::Closed => LinkAction::ExitThread,
        CommandPoll::Received(msg) => match msg {
            ThreadMSG::Disconnect() => if state is Connected {
                LinkAction::CloseLink
            } else {
                LinkAction::Continue
            },
            ThreadMSG::Start(path, baud) => if state is Idle {
                LinkAction::OpenPort(path, baud)
            } else {
                LinkAction::Continue
            },
            ThreadMSG::Data(_) => LinkAction::Continue,
        },
    }
}

/// Packets are only ever produced while the actor is connected.
pub open spec fn may_emit(state: ActorState) -> bool {
    state is Connected
}

/// The state machine that drives the link, together with the read buffer's
/// configuration. The physical handle itself lives with the caller; the
/// actor only ever knows whether one is held.
#[derive(Debug)]
pub struct LinkActor {
    pub state: ActorState,
    pub baud_rate: Option<u32>,
    pub serial_buffer: Vec<u8>,
}

impl LinkActor {
    /// The actor's book-keeping invariant: a baud rate is recorded exactly
    /// while a link is held.
    pub open spec fn wf(&self) -> bool {
        self.state is Idle <==> self.baud_rate is None
    }

    /// A fresh actor: no link, no baud rate, a zeroed default read buffer.
    pub fn new() -> (actor: LinkActor)
        ensures
            actor.state is Idle,
            actor.baud_rate is None,
            actor.serial_buffer@ == Seq::new(32, |k: int| 0u8),
            actor.wf(),
    {
        let mut serial_buffer: Vec<u8> = Vec::new();
        serial_buffer.resize(32, 0u8);
        proof {
            assert(serial_buffer@ =~= Seq::new(32, |k: int| 0u8));
        }
        LinkActor { state: ActorState::Idle, baud_rate: None, serial_buffer }
    }

    /// Wipes the read buffer and gives it a new size, zero-filled.
    pub fn modify_buffer_size(&mut self, size: usize)
        ensures
            final(self).state == old(self).state,
            final(self).baud_rate == old(self).baud_rate,
            final(self).serial_buffer@ == Seq::new(size as nat, |k: int| 0u8),
            old(self).wf() ==> final(self).wf(),
    {
        self.serial_buffer.clear();
        self.serial_buffer.resize(size, 0u8);
        proof {
            assert(self.serial_buffer@ =~= Seq::new(size as nat, |k: int| 0u8));
        }
    }

    /// Empties the read buffer.
    pub fn flush_buffer(&mut self)
        ensures
            final(self).state == old(self).state,
            final(self).baud_rate == old(self).baud_rate,
            final(self).serial_buffer@ == Seq::<u8>::empty(),
            old(self).wf() ==> final(self).wf(),
    {
        self.serial_buffer.clear();
        proof {
            assert(self.serial_buffer@ =~= Seq::<u8>::empty());
        }
    }

    /// Records the outcome of the caller's attempt to open a port. Success
    /// while idle connects the actor; failure leaves it idle and free to
    /// retry; an attempt while a link is already held is refused outright.
    pub fn on_open_result(&mut self, baud_rate: u32, opened: bool) -> (r: Result<(), LinkError>)
        ensures
            old(self).state is Idle && opened ==> final(self).state is Connected
                && final(self).baud_rate == Some(baud_rate) && r is Ok,
            old(self).state is Idle && !opened ==> *final(self) == *old(self)
                && r == Err::<(), LinkError>(LinkError::PortUnavailable),
            old(self).state !is Idle ==> *final(self) == *old(self)
                && r == Err::<(), LinkError>(LinkError::AlreadyActive),
            final(self).serial_buffer == old(self).serial_buffer,
            old(self).wf() ==> final(self).wf(),
    {
        match self.state {
            ActorState::Idle => {
                if opened {
                    self.state = ActorState::Connected;
                    self.baud_rate = Some(baud_rate);
                    Ok(())
                } else {
                    Err(LinkError::PortUnavailable)
                }
            },
            _ => Err(LinkError::AlreadyActive),
        }
    }

    /// Applies one non-blocking look at the command channel and tells the
    /// caller what to do with the physical link.
    pub fn poll_command(&mut self, poll: CommandPoll) -> (action: LinkAction)
        ensures
            final(self).state == poll_next_state(old(self).state, poll),
            final(self).baud_rate == old(self).baud_rate,
            final(self).serial_buffer == old(self).serial_buffer,
            action == poll_action_of(old(self).state, poll),
    {
        match poll {
            CommandPoll::Empty => LinkAction::Continue,
            CommandPoll::Closed => {
                self.state = ActorState::Stopping;
                LinkAction::ExitThread
            },
            CommandPoll::Received(msg) => match msg {
                ThreadMSG::Disconnect() => {
                    if matches!(self.state, ActorState::Connected) {
                        self.state = ActorState::Stopping;
                        LinkAction::CloseLink
                    } else {
                        LinkAction::Continue
                    }
                },
                ThreadMSG::Start(path, baud) => {
                    if matches!(self.state, ActorState::Idle) {
                        LinkAction::OpenPort(path, baud)
                    } else {
                        LinkAction::Continue
                    }
                },
                ThreadMSG::Data(_) => LinkAction::Continue,
            },
        }
    }

    /// Releases the actor's record of the link once the caller has dropped
    /// the handle: from any state holding a link, back to idle.
    pub fn disconnect(&mut self)
        ensures
            old(self).state is Idle ==> *final(self) == *old(self),
            old(self).state !is Idle ==> final(self).state is Idle
                && final(self).baud_rate is None && final(self).wf(),
            final(self).serial_buffer == old(self).serial_buffer,
            old(self).wf() ==> final(self).wf(),
    {
        match self.state {
            ActorState::Idle => {},
            _ => {
                self.state = ActorState::Idle;
                self.baud_rate = None;
            },
        }
    }

    /// One decode cycle over a freshly filled read buffer: classify the tag,
    /// slice the payload, decode it by kind, and hand back the packet to
    /// emit — or nothing, for an unknown tag.
    pub fn read_from_serial_packet(&self, buffer: &Vec<u8>, timestamp: u64) -> (emitted: Option<
        PacketData,
    >)
        requires
            self.state is Connected,
            buffer@.len() >= 3,
        ensures
            decode_yields(buffer@, timestamp, emitted),
    {
        match assemble_frame(buffer) {
            None => None,
            Some(mut packet) => {
                match packet.packet_type {
                    PacketKind::Text => read_string_from_serial(&mut packet, timestamp),
                    PacketKind::PositiveInteger => read_integer_from_serial(
                        false,
                        &mut packet,
                        timestamp,
                    ),
                    PacketKind::NegativeInteger => read_integer_from_serial(
                        true,
                        &mut packet,
                        timestamp,
                    ),
                    PacketKind::Binary => {},
                    PacketKind::Unknown => {},
                }
                let Packet { constructed_data, .. } = packet;
                Some(constructed_data)
            },
        }
    }
}

/// A disconnect received while connected quiesces the link: the very next
/// transition asks the caller to close the handle, the release that follows
/// leaves the actor idle, and an idle actor can emit no further packets.
pub proof fn lemma_disconnect_quiesces(state: ActorState)
    requires
        state is Connected,
    ensures
        poll_next_state(state, CommandPoll::Received(ThreadMSG::Disconnect())) is Stopping,
        poll_action_of(state, CommandPoll::Received(ThreadMSG::Disconnect())) is CloseLink,
        !may_emit(poll_next_state(state, CommandPoll::Received(ThreadMSG::Disconnect()))),
{
}

/// A start request seen while idle asks the caller to open that very port
/// and moves the actor nowhere: if the open then fails, `on_open_result`
/// leaves the actor untouched, so the same request can simply be retried.
pub proof fn lemma_failed_start_retries(state: ActorState, path: String, baud: usize)
    requires
        state is Idle,
    ensures
        poll_action_of(state, CommandPoll::Received(ThreadMSG::Start(path, baud)))
            == LinkAction::OpenPort(path, baud),
        poll_next_state(state, CommandPoll::Received(ThreadMSG::Start(path, baud))) == state,
{
}

/// A severed command channel likewise stops the link, whatever the state.
pub proof fn lemma_channel_closed_quiesces(state: ActorState)
    ensures
        poll_next_state(state, CommandPoll::Closed) is Stopping,
        poll_action_of(state, CommandPoll::Closed) is ExitThread,
        !may_emit(poll_next_state(state, CommandPoll::Closed)),
{
}

} // verus!
