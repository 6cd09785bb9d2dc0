//! The connection slot: at most one open serial connection, with the
//! operations that open and close it and move bytes over it.
//!
//! The slot does not talk to a device itself. Each operation is handed the
//! driver call that it needs as a function, makes that call only where the
//! operation allows it, and says in its contract what it handed to the call
//! and what it made of the answer. A port handle is any type `P`; the slot
//! only keeps it.
//!
//! The slot is not shared by itself: every operation takes it by `&mut`, so
//! callers that share one slot put it behind a lock and hold the lock for the
//! whole operation.

use crate::config::{profile_of, text_of, TransmissionProfile};
use crate::driver::{port_builder, port_settings, settings_for};
use serialport::SerialPortBuilder;
use std::sync::mpsc::Sender;
use vstd::math::min;
use vstd::prelude::*;

verus! {

/// Size of the buffer of a read that names none.
pub const DEFAULT_READ_SIZE: usize = 1024;

/// The sending half of a channel of the standard library,
/// `std::sync::mpsc::Sender`. A connection only carries it.
#[verifier::external_type_specification]
#[verifier::external_body]
#[verifier::reject_recursive_types(T)]
pub struct ExSender<T>(Sender<T>);

/// One live session with a device.
pub struct SerialPortClient<P> {
    /// The device path that the port was opened at.
    pub path: String,
    /// The line settings that the port was opened with.
    pub profile: TransmissionProfile,
    /// The open port, owned by this session alone.
    pub serialport: P,
    /// Where to announce incoming data; no operation uses it yet.
    pub sender: Option<Sender<usize>>,
}

/// The slot that holds the open connection, if there is one.
pub struct Connection<P>(pub Option<SerialPortClient<P>>);

/// Bytes that a read delivered, and how many they are.
#[derive(Clone, Copy, Debug)]
pub struct ReadData<'a> {
    pub data: &'a [u8],
    pub size: usize,
}

/// Whether a connection is open.
#[derive(Clone, Copy, Debug, PartialEq, Eq, Structural)]
pub enum ConnectionState {
    Closed,
    Open,
}

/// Why a transfer moved no bytes.
#[derive(Debug)]
pub enum TransferError<E> {
    /// No connection is open: the driver was not called.
    NotInitialized,
    /// The driver was called and reported this failure.
    Transport(E),
}

/// The size of the buffer that a read asks for: the size named, or the
/// default where none is.
pub open spec fn read_size_of(size: Option<usize>) -> usize {
    match size {
        Some(n) => n,
        None => DEFAULT_READ_SIZE,
    }
}

/// The buffer handed to the driver for a read: `len` zero bytes.
pub open spec fn zeroed_buffer(len: usize) -> Seq<u8> {
    Seq::new(len as nat, |i: int| 0u8)
}

/// How many bytes a read delivers when the driver reports `count` bytes in a
/// buffer of `held` bytes that was asked to be `size` long: `count`, but no
/// more than was asked for and no more than the buffer holds.
pub open spec fn delivered_len(held: nat, size: usize, count: usize) -> int {
    min(count as int, min(size as int, held as int))
}

/// The bytes that a read delivers when the driver reports `count` bytes and
/// leaves `buffer`: those at the start of the buffer.
pub open spec fn delivered(buffer: Seq<u8>, size: usize, count: usize) -> Seq<u8> {
    buffer.take(delivered_len(buffer.len(), size, count))
}

/// What a transfer reports for the answer of the driver.
pub open spec fn transfer_result<E>(outcome: Result<usize, E>) -> Result<usize, TransferError<E>> {
    match outcome {
        Ok(count) => Ok(count),
        Err(error) => Err(TransferError::Transport(error)),
    }
}

impl<'a> ReadData<'a> {
    /// The size is that of the data.
    pub open spec fn wf(&self) -> bool {
        self.size == self.data@.len()
    }

    /// Describes the bytes that a read delivered.
    pub fn new(data: &'a [u8]) -> (read: ReadData<'a>)
        ensures
            read.data@ == data@,
            read.size == data@.len(),
            read.wf(),
    {
        ReadData { data, size: data.len() }
    }
}

impl<P> Connection<P> {
    /// Closed, or open.
    pub open spec fn state(&self) -> ConnectionState {
        if self.0 is Some {
            ConnectionState::Open
        } else {
            ConnectionState::Closed
        }
    }

    /// The slot after an attempt to open `path` under `profile`: it holds the
    /// new session and nothing of the earlier one where the attempt gave a
    /// port, and is as before where it failed.
    pub open spec fn after_open<E>(
        self,
        path: String,
        profile: TransmissionProfile,
        outcome: Result<P, E>,
    ) -> Connection<P> {
        match outcome {
            Ok(port) => Connection(
                Some(SerialPortClient { path, profile, serialport: port, sender: None }),
            ),
            Err(_) => self,
        }
    }

    /// The open slot with its port as a transfer left it: the same session
    /// otherwise.
    pub open spec fn after_transfer(self, port: P) -> Connection<P>
        recommends
            self.0 is Some,
    {
        Connection(
            Some(
                SerialPortClient {
                    path: self.0->0.path,
                    profile: self.0->0.profile,
                    serialport: port,
                    sender: self.0->0.sender,
                },
            ),
        )
    }

    /// A slot with no connection.
    pub fn new() -> (slot: Connection<P>)
        ensures
            slot.0 is None,
            slot.state() == ConnectionState::Closed,
    {
        Connection(None)
    }

    /// Whether a connection is open.
    pub fn is_open(&self) -> (open: bool)
        ensures
            open == (self.state() == ConnectionState::Open),
    {
        self.0.is_some()
    }

    /// Opens the device at `path`, and on success keeps the new connection
    /// in place of any that was open.
    ///
    /// The optional values are resolved to a profile, the device is described
    /// to the driver by that profile, and `open` is called once with the
    /// description. Where it gives a port the slot holds exactly the new
    /// session afterwards, and the result is `true`; where it fails the slot
    /// is left as it was, and the result is `false`.
    pub fn open_port<E, F: FnOnce(SerialPortBuilder) -> Result<P, E>>(
        &mut self,
        path: String,
        baud_rate: u32,
        data_bits: Option<usize>,
        flow_control: Option<String>,
        parity: Option<String>,
        stop_bits: Option<usize>,
        timeout: Option<u64>,
        open: F,
    ) -> (opened: bool)
        requires
            forall|builder: SerialPortBuilder|
                port_settings(builder) == settings_for(
                    path@,
                    profile_of(
                        baud_rate,
                        data_bits,
                        text_of(flow_control),
                        text_of(parity),
                        stop_bits,
                        timeout,
                    ),
                ) ==> open.requires((builder,)),
        ensures
            exists|builder: SerialPortBuilder, outcome: Result<P, E>|
                {
                    let profile = profile_of(
                        baud_rate,
                        data_bits,
                        text_of(flow_control),
                        text_of(parity),
                        stop_bits,
                        timeout,
                    );
                    &&& port_settings(builder) == settings_for(path@, profile)
                    &&& #[trigger] open.ensures((builder,), outcome)
                    &&& opened == outcome is Ok
                    &&& *final(self) == old(self).after_open(path, profile, outcome)
                },
    {
        let profile = TransmissionProfile::resolve(
            baud_rate,
            data_bits,
            flow_control,
            parity,
            stop_bits,
            timeout,
        );
        let builder = port_builder(path.as_str(), &profile);
        match open(builder) {
            Ok(port) => {
                self.0 = Some(SerialPortClient { path, profile, serialport: port, sender: None });
                true
            },
            Err(_) => false,
        }
    }

    /// Closes the connection, if one is open. The slot is empty afterwards,
    /// whatever it held.
    pub fn close_port(&mut self)
        ensures
            final(self).0 is None,
            final(self).state() == ConnectionState::Closed,
    {
        self.0 = None;
    }

    /// Writes `payload` to the open port.
    ///
    /// With no connection open the result is `NotInitialized`, `send` is not
    /// called and the slot stays empty. Otherwise `send` is called once with
    /// the port and the whole payload; the result is the count that it
    /// reports, or its failure as `Transport`, and the connection stays open
    /// either way.
    pub fn write_port<E, F: FnOnce(&mut P, &[u8]) -> Result<usize, E>>(
        &mut self,
        payload: &[u8],
        send: F,
    ) -> (written: Result<usize, TransferError<E>>)
        requires
            forall|port: &mut P|
                old(self).0 matches Some(client) && *port == client.serialport ==> send.requires(
                    (port, payload),
                ),
        ensures
            old(self).0 is None ==> written is Err && written->Err_0 is NotInitialized
                && *final(self) == *old(self),
            old(self).0 matches Some(client) ==> exists|port: &mut P, outcome: Result<usize, E>|
                {
                    &&& *port == client.serialport
                    &&& #[trigger] send.ensures((port, payload), outcome)
                    &&& *final(self) == old(self).after_transfer(*final(port))
                    &&& written == transfer_result(outcome)
                },
    {
        match &mut self.0 {
            Some(client) => match send(&mut client.serialport, payload) {
                Ok(count) => Ok(count),
                Err(error) => Err(TransferError::Transport(error)),
            },
            None => Err(TransferError::NotInitialized),
        }
    }

    /// Reads from the open port into a buffer of `size` bytes, or of 1024
    /// where no size is named.
    ///
    /// With no connection open the result is `NotInitialized`, `receive` is
    /// not called and the slot stays empty. Otherwise `receive` is called
    /// once with the port and a zeroed buffer of that size; the result is the
    /// bytes that it reports to have read, from the start of the buffer and
    /// never more than the buffer holds, or its failure as `Transport`. The
    /// connection stays open either way.
    pub fn read_port<E, F: FnOnce(&mut P, &mut [u8]) -> Result<usize, E>>(
        &mut self,
        size: Option<usize>,
        receive: F,
    ) -> (read: Result<Vec<u8>, TransferError<E>>)
        requires
            forall|port: &mut P, buffer: &mut [u8]|
                old(self).0 matches Some(client) && *port == client.serialport && buffer@
                    == zeroed_buffer(read_size_of(size)) ==> receive.requires((port, buffer)),
        ensures
            old(self).0 is None ==> read is Err && read->Err_0 is NotInitialized && *final(self)
                == *old(self),
            old(self).0 matches Some(client) ==> exists|
                port: &mut P,
                buffer: &mut [u8],
                outcome: Result<usize, E>,
            |
                {
                    &&& *port == client.serialport
                    &&& buffer@ == zeroed_buffer(read_size_of(size))
                    &&& #[trigger] receive.ensures((port, buffer), outcome)
                    &&& *final(self) == old(self).after_transfer(*final(port))
                    &&& match outcome {
                        Ok(count) => read is Ok && read->Ok_0@ == delivered(
                            final(buffer)@,
                            read_size_of(size),
                            count,
                        ),
                        Err(error) => read is Err && read->Err_0 == TransferError::Transport(error),
                    }
                },
            read matches Ok(bytes) ==> bytes@.len() <= read_size_of(size),
    {
        match &mut self.0 {
            Some(client) => {
                let len = match size {
                    Some(n) => n,
                    None => DEFAULT_READ_SIZE,
                };
                let mut buffer: Vec<u8> = vec![0u8; len];
                assert(buffer@ =~= zeroed_buffer(len));
                match receive(&mut client.serialport, buffer.as_mut_slice()) {
                    Ok(count) => {
                        let ghost left = buffer@;
                        buffer.truncate(len);
                        buffer.truncate(count);
                        assert(buffer@ =~= delivered(left, len, count));
                        Ok(buffer)
                    },
                    Err(error) => Err(TransferError::Transport(error)),
                }
            },
            None => Err(TransferError::NotInitialized),
        }
    }
}

impl<P> Default for Connection<P> {
    /// A slot with no connection.
    fn default() -> (slot: Connection<P>)
        ensures
            slot.0 is None,
    {
        Connection(None)
    }
}

/// A successful open leaves exactly the new session in the slot, whatever
/// the slot held before: an earlier session is not kept beside it.
pub proof fn lemma_open_replaces<P, E>(
    before: Connection<P>,
    other: Connection<P>,
    path: String,
    profile: TransmissionProfile,
    port: P,
)
    ensures
        before.after_open(path, profile, Ok::<P, E>(port)).0 == Some(
            SerialPortClient { path, profile, serialport: port, sender: None },
        ),
        before.after_open(path, profile, Ok::<P, E>(port)).state() == ConnectionState::Open,
        before.after_open(path, profile, Ok::<P, E>(port)) == other.after_open(
            path,
            profile,
            Ok::<P, E>(port),
        ),
{
}

/// A failed open leaves the slot as it was: closed if it was closed, and
/// with the same session if it was open.
pub proof fn lemma_failed_open_keeps<P, E>(
    before: Connection<P>,
    path: String,
    profile: TransmissionProfile,
    error: E,
)
    ensures
        before.after_open(path, profile, Err::<P, E>(error)) == before,
        before.after_open(path, profile, Err::<P, E>(error)).state() == before.state(),
{
}

/// A transfer leaves the connection open, at the same path and with the
/// same profile, whatever the driver did with the port.
pub proof fn lemma_transfer_keeps_session<P>(before: Connection<P>, port: P)
    requires
        before.state() == ConnectionState::Open,
    ensures
        before.after_transfer(port).state() == ConnectionState::Open,
        before.after_transfer(port).0->0.path == before.0->0.path,
        before.after_transfer(port).0->0.profile == before.0->0.profile,
        before.after_transfer(port).0->0.sender == before.0->0.sender,
        before.after_transfer(port).0->0.serialport == port,
{
}

/// A read that names no size asks for what a read of 1024 bytes asks for,
/// and delivers what that read delivers.
pub proof fn lemma_default_read_size(buffer: Seq<u8>, count: usize)
    ensures
        read_size_of(None) == 1024,
        read_size_of(None) == read_size_of(Some(1024)),
        zeroed_buffer(read_size_of(None)) == zeroed_buffer(read_size_of(Some(1024))),
        delivered(buffer, read_size_of(None), count) == delivered(
            buffer,
            read_size_of(Some(1024)),
            count,
        ),
{
}

/// What a read delivers is never longer than the size asked for, than the
/// count that the driver reports, or than the buffer. Where the driver
/// leaves the buffer at its size and reports no more than that, the read
/// delivers exactly the first `count` bytes.
pub proof fn lemma_delivered_fits(buffer: Seq<u8>, size: usize, count: usize)
    ensures
        delivered(buffer, size, count).len() <= size,
        delivered(buffer, size, count).len() <= count,
        delivered(buffer, size, count).len() <= buffer.len(),
        buffer.len() == size && count <= size ==> delivered(buffer, size, count) == buffer.take(
            count as int,
        ),
{
}

} // verus!
