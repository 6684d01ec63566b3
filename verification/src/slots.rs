//! Connection slots and the connection lifecycle manager.
//!
//! A [`ConnectionSlot`] exclusively owns at most one live connection handle;
//! the [`ConnectionManager`] holds one slot for input and one for output and
//! drives the open/send lifecycle. Opening a port is a two-step protocol:
//! the first step validates the requested index against the freshly
//! enumerated port list and releases any previous connection, handing back a
//! token; the shell then asks the platform to connect, and the second step
//! consumes the token together with the platform's answer. The ordering is
//! release-before-acquire: the old handle is fully torn down before a new
//! connect is attempted, so no two connections are ever live in one slot.

use vstd::prelude::*;

verus! {

use crate::devices::Direction;
use crate::errors::MidiError;

/// An exclusively owned, swappable holder for zero or one live connection
/// handle of type `T`, tagged with the port index (relative to the
/// enumeration that produced it) the connection was opened on.
pub struct ConnectionSlot<T> {
    active: Option<(usize, T)>,
}

impl<T> ConnectionSlot<T> {
    /// The live connection, if any: its port index and its handle.
    pub closed spec fn spec_active(self) -> Option<(usize, T)> {
        self.active
    }

    /// Whether a connection is live in this slot.
    pub open spec fn spec_connected(self) -> bool {
        self.spec_active() is Some
    }

    /// The port index of the live connection, if any.
    pub open spec fn spec_port(self) -> Option<usize> {
        match self.spec_active() {
            Some(c) => Some(c.0),
            None => None,
        }
    }

    /// A slot holding no connection.
    pub fn new() -> (s: Self)
        ensures
            s.spec_active() is None,
    {
        ConnectionSlot { active: None }
    }

    /// Whether a connection is live in this slot.
    pub fn is_connected(&self) -> (b: bool)
        ensures
            b == self.spec_connected(),
    {
        match &self.active {
            Some(_) => true,
            None => false,
        }
    }

    /// The port index of the live connection, if any.
    pub fn port(&self) -> (p: Option<usize>)
        ensures
            p == self.spec_port(),
    {
        match &self.active {
            Some(c) => Some(c.0),
            None => None,
        }
    }

    /// Releases the current connection, if any: the handle is dropped, and
    /// its teardown is complete when this call returns.
    pub fn clear(&mut self)
        ensures
            final(self).spec_active() is None,
    {
        self.active = None;
    }

    /// Installs a new live connection. The slot must be empty: the previous
    /// handle has to be fully torn down before a new one is accepted
    /// (release-before-acquire), so two connections never coexist here.
    pub fn install(&mut self, port: usize, handle: T)
        requires
            old(self).spec_active() is None,
        ensures
            final(self).spec_active() == Some((port, handle)),
    {
        self.active = Some((port, handle));
    }

    /// Exclusive access to the live handle, or the fail-fast error where
    /// none is live. The slot itself is left as it was, up to whatever the
    /// caller does through the returned handle.
    pub fn active_mut(&mut self) -> (r: Result<&mut T, MidiError>)
        ensures
            old(self).spec_active() matches Some(c) ==> (r is Ok && *r->Ok_0 == c.1 && final(self).spec_active() == Some((c.0, *final(r->Ok_0)))),
            old(self).spec_active() is None ==> r == Err::<&mut T, MidiError>(
                MidiError::NotConnected,
            ) && *final(self) == *old(self),
    {
        match &mut self.active {
            Some(c) => Ok(&mut c.1),
            None => Err(MidiError::NotConnected),
        }
    }
}

/// Evidence that the input slot has been released for a pending open of
/// the port with this index. Only [`ConnectionManager::prepare_open_input`]
/// produces it, and finishing the open consumes it.
pub struct PendingInput {
    index: usize,
}

impl PendingInput {
    /// The validated index of the port to connect to.
    pub closed spec fn spec_index(self) -> usize {
        self.index
    }

    /// The validated index of the port to connect to.
    pub fn index(&self) -> (i: usize)
        ensures
            i == self.spec_index(),
    {
        self.index
    }
}

/// Evidence that the output slot has been released for a pending open of
/// the port with this index. Only [`ConnectionManager::prepare_open_output`]
/// produces it, and finishing the open consumes it.
pub struct PendingOutput {
    index: usize,
}

impl PendingOutput {
    /// The validated index of the port to connect to.
    pub closed spec fn spec_index(self) -> usize {
        self.index
    }

    /// The validated index of the port to connect to.
    pub fn index(&self) -> (i: usize)
        ensures
            i == self.spec_index(),
    {
        self.index
    }
}

/// The connection state of the whole system: one slot for the input
/// connection (handle type `I`) and one for the output connection (handle
/// type `O`). The embedding shell owns exactly one manager and threads it
/// through every command.
pub struct ConnectionManager<I, O> {
    input: ConnectionSlot<I>,
    output: ConnectionSlot<O>,
}

/// The manager with the input slot released and everything else unchanged.
pub closed spec fn input_released<I, O>(m: ConnectionManager<I, O>) -> ConnectionManager<I, O> {
    ConnectionManager { input: ConnectionSlot { active: None }, output: m.output }
}

/// The manager with `handle` live on input port `port` and everything else
/// unchanged.
pub closed spec fn input_installed<I, O>(
    m: ConnectionManager<I, O>,
    port: usize,
    handle: I,
) -> ConnectionManager<I, O> {
    ConnectionManager { input: ConnectionSlot { active: Some((port, handle)) }, output: m.output }
}

/// The manager with the output slot released and everything else unchanged.
pub closed spec fn output_released<I, O>(m: ConnectionManager<I, O>) -> ConnectionManager<I, O> {
    ConnectionManager { input: m.input, output: ConnectionSlot { active: None } }
}

/// The manager with `handle` live on output port `port` and everything
/// else unchanged.
pub closed spec fn output_installed<I, O>(
    m: ConnectionManager<I, O>,
    port: usize,
    handle: O,
) -> ConnectionManager<I, O> {
    ConnectionManager { input: m.input, output: ConnectionSlot { active: Some((port, handle)) } }
}

impl<I, O> ConnectionManager<I, O> {
    /// The input slot.
    pub closed spec fn spec_input(self) -> ConnectionSlot<I> {
        self.input
    }

    /// The output slot.
    pub closed spec fn spec_output(self) -> ConnectionSlot<O> {
        self.output
    }

    /// The live input connection, if any: port index and handle.
    pub open spec fn spec_input_active(self) -> Option<(usize, I)> {
        self.spec_input().spec_active()
    }

    /// The live output connection, if any: port index and handle.
    pub open spec fn spec_output_active(self) -> Option<(usize, O)> {
        self.spec_output().spec_active()
    }

    /// Whether an input connection is live.
    pub open spec fn spec_input_connected(self) -> bool {
        self.spec_input().spec_connected()
    }

    /// Whether an output connection is live.
    pub open spec fn spec_output_connected(self) -> bool {
        self.spec_output().spec_connected()
    }

    /// The port index of the live input connection, if any.
    pub open spec fn spec_input_port(self) -> Option<usize> {
        self.spec_input().spec_port()
    }

    /// The port index of the live output connection, if any.
    pub open spec fn spec_output_port(self) -> Option<usize> {
        self.spec_output().spec_port()
    }

    /// A manager with no live connection in either slot.
    pub fn new() -> (m: Self)
        ensures
            m.spec_input_active() is None,
            m.spec_output_active() is None,
    {
        ConnectionManager { input: ConnectionSlot::new(), output: ConnectionSlot::new() }
    }

    /// Whether an input connection is live.
    pub fn input_connected(&self) -> (b: bool)
        ensures
            b == self.spec_input_connected(),
    {
        self.input.is_connected()
    }

    /// Whether an output connection is live.
    pub fn output_connected(&self) -> (b: bool)
        ensures
            b == self.spec_output_connected(),
    {
        self.output.is_connected()
    }

    /// The port index of the live input connection, if any.
    pub fn input_port(&self) -> (p: Option<usize>)
        ensures
            p == self.spec_input_port(),
    {
        self.input.port()
    }

    /// The port index of the live output connection, if any.
    pub fn output_port(&self) -> (p: Option<usize>)
        ensures
            p == self.spec_output_port(),
    {
        self.output.port()
    }

    /// open-input, first step: validate the requested index against the
    /// freshly enumerated input port list (of length `ports_len`).
    ///
    /// An index outside the list fails with the invalid-index error and the
    /// manager is left exactly as it was: a failed open never disturbs a
    /// slot. A valid index always succeeds: the previous input connection
    /// (if any) is released — its teardown completes now, before any new
    /// connect is attempted — and the returned token carries the validated
    /// index to connect to.
    pub fn prepare_open_input(&mut self, ports_len: usize, index: usize) -> (r: Result<
        PendingInput,
        MidiError,
    >)
        ensures
            index < ports_len ==> (r matches Ok(p) && p.spec_index() == index && *final(self)
                == input_released(*old(self)) && !final(self).spec_input_connected() && final(self).spec_output() == old(self).spec_output()),
            index >= ports_len ==> r == Err::<PendingInput, MidiError>(
                MidiError::InvalidIndex(Direction::Input),
            ) && *final(self) == *old(self),
    {
        if index < ports_len {
            self.input.clear();
            Ok(PendingInput { index })
        } else {
            Err(MidiError::InvalidIndex(Direction::Input))
        }
    }

    /// open-input, second step: record the platform's answer to the
    /// connect call made for the prepared port.
    ///
    /// On success the new handle becomes the live input connection on the
    /// token's port. On failure the platform's report surfaces as an
    /// enumeration error and the input slot is left empty — the previous
    /// connection was already released, and a failed connect installs
    /// nothing. The output slot is untouched either way.
    pub fn finish_open_input(&mut self, pending: PendingInput, outcome: Result<I, String>) -> (r:
        Result<(), MidiError>)
        ensures
            outcome matches Ok(h) ==> (r == Ok::<(), MidiError>(()) && *final(self)
                == input_installed(*old(self), pending.spec_index(), h) && final(self).spec_input_active() == Some((pending.spec_index(), h))),
            outcome matches Err(m) ==> (r == Err::<(), MidiError>(MidiError::Enumeration(m))
                && *final(self) == input_released(*old(self)) && !final(self).spec_input_connected()),
            final(self).spec_output() == old(self).spec_output(),
    {
        match outcome {
            Ok(h) => {
                self.input.clear();
                self.input.install(pending.index, h);
                Ok(())
            },
            Err(m) => {
                self.input.clear();
                Err(MidiError::Enumeration(m))
            },
        }
    }

    /// open-output, first step: validate the requested index against the
    /// freshly enumerated output port list (of length `ports_len`).
    ///
    /// An index outside the list fails with the invalid-index error and the
    /// manager is left exactly as it was: a failed open never disturbs a
    /// slot. A valid index always succeeds: the previous output connection
    /// (if any) is released — its teardown completes now, before any new
    /// connect is attempted — and the returned token carries the validated
    /// index to connect to.
    pub fn prepare_open_output(&mut self, ports_len: usize, index: usize) -> (r: Result<
        PendingOutput,
        MidiError,
    >)
        ensures
            index < ports_len ==> (r matches Ok(p) && p.spec_index() == index && *final(self)
                == output_released(*old(self)) && !final(self).spec_output_connected() && final(self).spec_input() == old(self).spec_input()),
            index >= ports_len ==> r == Err::<PendingOutput, MidiError>(
                MidiError::InvalidIndex(Direction::Output),
            ) && *final(self) == *old(self),
    {
        if index < ports_len {
            self.output.clear();
            Ok(PendingOutput { index })
        } else {
            Err(MidiError::InvalidIndex(Direction::Output))
        }
    }

    /// open-output, second step: record the platform's answer to the
    /// connect call made for the prepared port.
    ///
    /// On success the new handle becomes the live output connection on the
    /// token's port. On failure the platform's report surfaces as an
    /// enumeration error and the output slot is left empty — the previous
    /// connection was already released, and a failed connect installs
    /// nothing. The input slot is untouched either way.
    pub fn finish_open_output(&mut self, pending: PendingOutput, outcome: Result<O, String>) -> (r:
        Result<(), MidiError>)
        ensures
            outcome matches Ok(h) ==> (r == Ok::<(), MidiError>(()) && *final(self)
                == output_installed(*old(self), pending.spec_index(), h) && final(self).spec_output_active() == Some((pending.spec_index(), h))),
            outcome matches Err(m) ==> (r == Err::<(), MidiError>(MidiError::Enumeration(m))
                && *final(self) == output_released(*old(self)) && !final(self).spec_output_connected()),
            final(self).spec_input() == old(self).spec_input(),
    {
        match outcome {
            Ok(h) => {
                self.output.clear();
                self.output.install(pending.index, h);
                Ok(())
            },
            Err(m) => {
                self.output.clear();
                Err(MidiError::Enumeration(m))
            },
        }
    }

    /// send, first step: exclusive access to the live output handle, for
    /// one transmit call.
    ///
    /// If no output connection is live the send fails fast with the
    /// distinct not-connected error and nothing changes. Otherwise the
    /// handle of the live connection is handed out; the connection stays
    /// live on the same port, holding whatever the caller's transmit call
    /// leaves in the handle.
    pub fn active_output(&mut self) -> (r: Result<&mut O, MidiError>)
        ensures
            old(self).spec_output_active() matches Some(c) ==> (r is Ok && *r->Ok_0 == c.1 && final(self).spec_output_active() == Some((c.0, *final(r->Ok_0))) && final(self).spec_input()
                == old(self).spec_input()),
            old(self).spec_output_active() is None ==> r == Err::<&mut O, MidiError>(
                MidiError::NotConnected,
            ) && *final(self) == *old(self),
    {
        self.output.active_mut()
    }
}

/// Law: a released slot holds nothing, and installing after a release
/// makes exactly the installed connection live — so an open that replaces
/// a connection passes through a state where the old one is fully torn
/// down and no window exists in which both are live.
pub proof fn lemma_release_before_acquire<I, O>(m: ConnectionManager<I, O>, port: usize, handle: O)
    ensures
        !output_released(m).spec_output_connected(),
        output_installed(output_released(m), port, handle).spec_output_active() == Some(
            (port, handle),
        ),
        output_installed(output_released(m), port, handle).spec_input() == m.spec_input(),
{
}

/// Law: opening the output twice in succession leaves exactly the second
/// connection live — the first is released before the second connect is
/// attempted (the intermediate state holds no live output), and once the
/// second is installed, the output slot holds the second handle on the
/// second port and nothing else.
pub proof fn lemma_reopen_output_supersedes<I, O>(
    m: ConnectionManager<I, O>,
    first: usize,
    h1: O,
    second: usize,
    h2: O,
)
    ensures
        ({
            let opened_first = output_installed(output_released(m), first, h1);
            let released = output_released(opened_first);
            let opened_second = output_installed(released, second, h2);
            &&& !released.spec_output_connected()
            &&& opened_second.spec_output_active() == Some((second, h2))
            &&& opened_second.spec_output_port() == Some(second)
            &&& opened_second.spec_input() == m.spec_input()
        }),
{
}

/// Law: opening the input twice in succession behaves the same way — the
/// first connection is released before the second connect, and afterwards
/// exactly the second is live.
pub proof fn lemma_reopen_input_supersedes<I, O>(
    m: ConnectionManager<I, O>,
    first: usize,
    h1: I,
    second: usize,
    h2: I,
)
    ensures
        ({
            let opened_first = input_installed(input_released(m), first, h1);
            let released = input_released(opened_first);
            let opened_second = input_installed(released, second, h2);
            &&& !released.spec_input_connected()
            &&& opened_second.spec_input_active() == Some((second, h2))
            &&& opened_second.spec_input_port() == Some(second)
            &&& opened_second.spec_output() == m.spec_output()
        }),
{
}

} // verus!
