//! The image transfer as a state machine. The machine decides; its driver
//! performs each write it is handed and feeds back the one notification that
//! answers it. At most one packet is in flight, and the first rejection ends
//! the transfer for good.

use vstd::prelude::*;
use vstd::string::StringExecFns;
use crate::command::{
    auth_packet, auth_payload, connect_packet, continue_packet, end_stream_packet, secret_view,
    start_stream_packet,
};
use crate::codec::crc32_iscsi;
use crate::frame::{
    announcement_bytes, chunk, chunk_count, chunk_count_of, chunk_at, frame_bytes, ImageData,
    StartAnnouncement,
};
use crate::notification::{
    decode_notification, notification_of, AuthResult, DecodeError, GenericResult, Payload,
    PayloadView,
};
use crate::packet::{packet_bytes, Handle};

verus! {

/// Where a transfer stands.
#[derive(Debug, Clone, Copy, PartialEq, Eq, Structural)]
pub enum Phase {
    /// Nothing sent yet.
    Idle,
    /// `Connect` sent, its notification awaited.
    Connecting,
    /// The authentication packet sent, its notification awaited.
    Authenticating,
    /// `StartStream` sent, its notification awaited.
    Announcing,
    /// The chunk with this sequence number sent, its notification awaited.
    Streaming(u32),
    /// `EndStream` sent, its notification awaited.
    Ending,
    /// The device accepted the whole frame.
    Done,
    /// The transfer was given up.
    Failed,
}

/// The characteristic that a packet is written to.
#[derive(Debug, Clone, Copy, PartialEq, Eq, Structural)]
pub enum Channel {
    /// Administrative packets: connect and authenticate.
    Command,
    /// Announcement, chunks and end of stream.
    Bulk,
}

/// Why a transfer was given up.
#[derive(Debug, Clone, Copy, PartialEq, Eq, Structural)]
pub enum TransferError {
    /// The frame is longer than the announcement's two-byte length can say.
    FrameTooLarge,
    /// The notification did not decode.
    Decode(DecodeError),
    /// The notification answers another command than the one sent.
    HandleMismatch { expected: Handle, received: Handle },
    /// The device did not accept the credential.
    AuthRejected(AuthResult),
    /// The device reported failure at the end of the stream.
    StreamRejected,
    /// No notification came within the time the driver allows.
    TimedOut,
    /// The driver was told to stop.
    Cancelled,
    /// The event is not one that the phase awaits.
    OutOfTurn,
}

/// What the driver reports to the machine.
#[derive(Debug)]
pub enum Event {
    /// The driver is ready to send.
    Begin,
    /// The device delivered this notification buffer.
    Notified(Vec<u8>),
    /// The awaited notification did not come in time.
    TimedOut,
    /// The transfer is to be stopped.
    Cancelled,
}

/// An event as plain values.
pub enum EventView {
    Begin,
    Notified(Seq<u8>),
    TimedOut,
    Cancelled,
}

impl View for Event {
    type V = EventView;

    open spec fn view(&self) -> EventView {
        match self {
            Event::Begin => EventView::Begin,
            Event::Notified(buf) => EventView::Notified(buf@),
            Event::TimedOut => EventView::TimedOut,
            Event::Cancelled => EventView::Cancelled,
        }
    }
}

/// What the machine asks of the driver.
#[derive(Debug)]
pub enum Action {
    /// Write these bytes to this characteristic, then report the next
    /// notification.
    Write { channel: Channel, bytes: Vec<u8> },
    /// The transfer is complete.
    Complete,
    /// The transfer is given up.
    Abort(TransferError),
}

/// An action as plain values.
pub enum ActionView {
    Write { channel: Channel, bytes: Seq<u8> },
    Complete,
    Abort(TransferError),
}

impl View for Action {
    type V = ActionView;

    open spec fn view(&self) -> ActionView {
        match self {
            Action::Write { channel, bytes } => ActionView::Write {
                channel: *channel,
                bytes: bytes@,
            },
            Action::Complete => ActionView::Complete,
            Action::Abort(e) => ActionView::Abort(*e),
        }
    }
}

impl ActionView {
    pub open spec fn is_write(self) -> bool {
        self is Write
    }
}

/// The handle that the notification awaited in a phase must carry.
pub open spec fn expected_handle(phase: Phase) -> Option<Handle> {
    match phase {
        Phase::Connecting => Some(Handle::Connect),
        Phase::Authenticating => Some(Handle::TestPass),
        Phase::Announcing => Some(Handle::StartStream),
        Phase::Streaming(_) => Some(Handle::Continue),
        Phase::Ending => Some(Handle::EndStream),
        _ => None,
    }
}

/// A phase that no event leads out of.
pub open spec fn is_terminal(phase: Phase) -> bool {
    phase == Phase::Done || phase == Phase::Failed
}

/// The wire form of the `Connect` packet.
pub open spec fn connect_bytes() -> Seq<u8> {
    packet_bytes(0x54, Handle::Connect, None, None, seq![0x00u8])
}

/// The wire form of the authentication packet.
pub open spec fn auth_bytes(secret: Option<Seq<u8>>) -> Seq<u8> {
    packet_bytes(0x54, Handle::TestPass, None, None, auth_payload(secret))
}

/// The wire form of the `StartStream` packet for a frame.
pub open spec fn start_bytes(crc32: u32, frame_len: nat) -> Seq<u8> {
    packet_bytes(
        0x54,
        Handle::StartStream,
        None,
        None,
        announcement_bytes(crc32, frame_len as u16),
    )
}

/// The wire form of the `Continue` packet for chunk `i` of a frame.
pub open spec fn chunk_bytes(frame: Seq<u8>, i: u32) -> Seq<u8> {
    let piece = chunk_at(frame, i as nat);
    packet_bytes(0x54, Handle::Continue, Some(i), Some(piece.len() as u16), piece)
}

/// The wire form of the `EndStream` packet.
pub open spec fn end_bytes() -> Seq<u8> {
    packet_bytes(0x54, Handle::EndStream, None, None, seq![0x01u8])
}

/// A transfer as plain values.
pub struct TransferView {
    pub phase: Phase,
    /// The continuation frame that is streamed.
    pub frame: Seq<u8>,
    /// The CRC-32 that is announced.
    pub crc32: u32,
    /// The credential, where one is checked.
    pub secret: Option<Seq<u8>>,
}

impl TransferView {
    /// The frame fits the announcement, and a chunk in flight is one of the
    /// frame's.
    pub open spec fn wf(self) -> bool {
        &&& 24 <= self.frame.len() <= u16::MAX
        &&& self.phase matches Phase::Streaming(i) ==> i < chunk_count_of(self.frame.len())
        &&& self.secret matches Some(s) ==> s.len() == 6
    }

    pub open spec fn with_phase(self, phase: Phase) -> TransferView {
        TransferView { phase, ..self }
    }

    /// Giving up with `error`.
    pub open spec fn fail(self, error: TransferError) -> (TransferView, ActionView) {
        (self.with_phase(Phase::Failed), ActionView::Abort(error))
    }

    /// Moving to `phase` by writing `bytes`.
    pub open spec fn send(self, phase: Phase, channel: Channel, bytes: Seq<u8>) -> (
        TransferView,
        ActionView,
    ) {
        (self.with_phase(phase), ActionView::Write { channel, bytes })
    }

    /// The device's answer is a negative result: a credential was checked
    /// and not found correct, or the end of the stream was reported failed.
    pub open spec fn negative(self, data: PayloadView) -> bool {
        match self.phase {
            Phase::Authenticating => self.secret.is_some() && data != PayloadView::Auth(
                AuthResult::Correct,
            ),
            Phase::Ending => data == PayloadView::Outcome(GenericResult::Fail),
            _ => false,
        }
    }

    /// The error that a negative result is reported as.
    pub open spec fn negative_error(self, data: PayloadView) -> TransferError {
        match data {
            PayloadView::Auth(r) => TransferError::AuthRejected(r),
            _ => TransferError::StreamRejected,
        }
    }

    /// The step taken on a notification that decoded and carries the awaited
    /// handle.
    pub open spec fn advance(self, data: PayloadView) -> (TransferView, ActionView) {
        if self.negative(data) {
            self.fail(self.negative_error(data))
        } else {
            match self.phase {
                Phase::Connecting => self.send(
                    Phase::Authenticating,
                    Channel::Command,
                    auth_bytes(self.secret),
                ),
                Phase::Authenticating => self.send(
                    Phase::Announcing,
                    Channel::Bulk,
                    start_bytes(self.crc32, self.frame.len()),
                ),
                Phase::Announcing => self.send(
                    Phase::Streaming(0),
                    Channel::Bulk,
                    chunk_bytes(self.frame, 0),
                ),
                Phase::Streaming(i) => if i + 1 < chunk_count_of(self.frame.len()) {
                    self.send(
                        Phase::Streaming((i + 1) as u32),
                        Channel::Bulk,
                        chunk_bytes(self.frame, (i + 1) as u32),
                    )
                } else {
                    self.send(Phase::Ending, Channel::Bulk, end_bytes())
                },
                Phase::Ending => (self.with_phase(Phase::Done), ActionView::Complete),
                _ => self.fail(TransferError::OutOfTurn),
            }
        }
    }

    /// The step taken on an event that stops the transfer: a terminal phase
    /// stays as it is, any other gives up with `error`.
    pub open spec fn stop(self, error: TransferError) -> (TransferView, ActionView) {
        if is_terminal(self.phase) {
            (self, ActionView::Abort(TransferError::OutOfTurn))
        } else {
            self.fail(error)
        }
    }

    /// The step taken on an event that the phase does not await.
    pub open spec fn out_of_turn(self) -> (TransferView, ActionView) {
        self.stop(TransferError::OutOfTurn)
    }

    /// The machine: from a state and an event to the next state and the
    /// action asked of the driver.
    pub open spec fn step(self, event: EventView) -> (TransferView, ActionView) {
        match event {
            EventView::Begin => if self.phase == Phase::Idle {
                self.send(Phase::Connecting, Channel::Command, connect_bytes())
            } else {
                self.out_of_turn()
            },
            EventView::TimedOut => self.stop(TransferError::TimedOut),
            EventView::Cancelled => self.stop(TransferError::Cancelled),
            EventView::Notified(buf) => match expected_handle(self.phase) {
                None => self.out_of_turn(),
                Some(expected) => match notification_of(buf) {
                    Err(e) => self.fail(TransferError::Decode(e)),
                    Ok(n) => if n.handle != expected {
                        self.fail(TransferError::HandleMismatch { expected, received: n.handle })
                    } else {
                        self.advance(n.data)
                    },
                },
            },
        }
    }

    /// The notification `buf` is rejected in this state: it does not decode,
    /// it carries another handle than the awaited one, or it reports a
    /// negative result.
    pub open spec fn rejects(self, buf: Seq<u8>) -> bool {
        match expected_handle(self.phase) {
            None => false,
            Some(expected) => match notification_of(buf) {
                Err(_) => true,
                Ok(n) => n.handle != expected || self.negative(n.data),
            },
        }
    }

    /// The state reached from this one by a run of events.
    pub open spec fn after(self, events: Seq<EventView>) -> TransferView
        decreases events.len(),
    {
        if events.len() == 0 {
            self
        } else {
            self.after(events.drop_last()).step(events.last()).0
        }
    }

    /// The action that the `j`-th event of a run is answered with.
    pub open spec fn action_at(self, events: Seq<EventView>, j: int) -> ActionView
        recommends
            0 <= j < events.len(),
    {
        self.after(events.take(j)).step(events[j]).1
    }
}

/// Every step keeps a state well-formed.
pub proof fn lemma_step_keeps_wf(s: TransferView, event: EventView)
    requires
        s.wf(),
    ensures
        s.step(event).0.wf(),
        s.step(event).0.frame == s.frame,
        s.step(event).0.crc32 == s.crc32,
        s.step(event).0.secret == s.secret,
{
}

/// One packet is in flight at a time: a step asks for a write exactly where
/// it leads to a phase that awaits an answer; it reports completion only on
/// the step from `Ending` to `Done`; and where it gives up, the transfer is
/// in `Failed`, or was finished before and is left as it was.
pub proof fn lemma_one_in_flight(s: TransferView, event: EventView)
    ensures
        s.step(event).1 is Write <==> expected_handle(s.step(event).0.phase).is_some(),
        s.step(event).1 is Complete ==> s.phase == Phase::Ending && s.step(event).0.phase
            == Phase::Done,
        s.step(event).1 is Abort ==> s.step(event).0.phase == Phase::Failed || (is_terminal(
            s.phase,
        ) && s.step(event).0 == s),
{
}

/// Chunks go out in ascending order from zero: a step leads to
/// `Streaming(j)` only from `Announcing`, for `j == 0`, or from
/// `Streaming(j - 1)`, and then writes chunk `j` of the frame to the bulk
/// channel.
pub proof fn lemma_chunks_in_order(s: TransferView, event: EventView, j: u32)
    requires
        s.wf(),
        s.step(event).0.phase == Phase::Streaming(j),
    ensures
        j == 0 ==> s.phase == Phase::Announcing,
        j > 0 ==> s.phase == Phase::Streaming((j - 1) as u32),
        s.step(event).1 == (ActionView::Write {
            channel: Channel::Bulk,
            bytes: chunk_bytes(s.frame, j),
        }),
        j < chunk_count_of(s.frame.len()),
{
}

/// A rejected notification ends the transfer: the machine moves to `Failed`
/// and asks for no write.
pub proof fn lemma_rejection_fails(s: TransferView, buf: Seq<u8>)
    requires
        s.rejects(buf),
    ensures
        s.step(EventView::Notified(buf)).0.phase == Phase::Failed,
        s.step(EventView::Notified(buf)).1 is Abort,
{
}

/// In a terminal phase nothing changes and nothing is written, whatever
/// events follow.
pub proof fn lemma_terminal_stays(s: TransferView, events: Seq<EventView>)
    requires
        is_terminal(s.phase),
    ensures
        s.after(events) == s,
        forall|j: int| 0 <= j < events.len() ==> !(#[trigger] s.action_at(events, j)).is_write(),
    decreases events.len(),
{
    if events.len() > 0 {
        lemma_terminal_stays(s, events.drop_last());
        assert forall|j: int| 0 <= j < events.len() implies !(#[trigger] s.action_at(
            events,
            j,
        )).is_write() by {
            lemma_terminal_stays(s, events.take(j));
        }
    }
}

/// Running a prefix `a` and then `b` is running `a + b`.
pub proof fn lemma_after_concat(s: TransferView, a: Seq<EventView>, b: Seq<EventView>)
    ensures
        s.after(a + b) == s.after(a).after(b),
    decreases b.len(),
{
    if b.len() == 0 {
        assert(a + b =~= a);
    } else {
        assert((a + b).drop_last() =~= a + b.drop_last());
        lemma_after_concat(s, a, b.drop_last());
    }
}

/// If the `k`-th event of a run is a notification that is rejected in the
/// state it arrives in, the machine is in `Failed` from then on and every
/// later event is answered without a write: no chunk is sent after a
/// failure.
pub proof fn lemma_no_write_after_rejection(
    s: TransferView,
    events: Seq<EventView>,
    k: int,
    j: int,
)
    requires
        0 <= k < j < events.len(),
        events[k] matches EventView::Notified(buf) && s.after(events.take(k)).rejects(buf),
    ensures
        s.after(events.take(k + 1)).phase == Phase::Failed,
        s.action_at(events, k) is Abort,
        s.after(events.take(j)).phase == Phase::Failed,
        !s.action_at(events, j).is_write(),
{
    let before = s.after(events.take(k));
    let buf = events[k]->Notified_0;
    lemma_rejection_fails(before, buf);
    assert(events.take(k + 1).drop_last() =~= events.take(k));
    let failed = s.after(events.take(k + 1));
    let rest = events.subrange(k + 1, j);
    assert(events.take(j) =~= events.take(k + 1) + rest);
    lemma_after_concat(s, events.take(k + 1), rest);
    lemma_terminal_stays(failed, rest);
}

/// One image transfer. It is built for one frame, stepped by its driver
/// until it asks for no further write, and then discarded.
#[derive(Debug)]
pub struct Transfer {
    phase: Phase,
    frame: Vec<u8>,
    announcement: StartAnnouncement,
    secret: Option<[u8; 6]>,
}

impl View for Transfer {
    type V = TransferView;

    closed spec fn view(&self) -> TransferView {
        TransferView {
            phase: self.phase,
            frame: self.frame@,
            crc32: self.announcement.crc32_value(),
            secret: secret_view(self.secret),
        }
    }
}

impl Transfer {
    #[verifier::type_invariant]
    closed spec fn inv(self) -> bool {
        &&& self@.wf()
        &&& self.announcement.total_length_value() == self.frame@.len()
    }

    /// A transfer of `frame`, in phase `Idle`. With a credential the device's
    /// answer to the authentication is checked; without one, any answer is
    /// accepted. Fails where the frame, 24 bytes longer than its payload, is
    /// over 65535 bytes.
    pub fn for_frame(frame: &ImageData, secret: Option<[u8; 6]>) -> (out: Result<
        Transfer,
        TransferError,
    >)
        ensures
            out.is_ok() <==> 24 + frame.data@.len() <= u16::MAX,
            out matches Ok(t) ==> t@ == (TransferView {
                phase: Phase::Idle,
                frame: frame_bytes(frame.crc32, frame.data@),
                crc32: frame.crc32,
                secret: secret_view(secret),
            }) && t@.wf(),
            out matches Err(e) ==> e == TransferError::FrameTooLarge,
    {
        match StartAnnouncement::for_frame(frame) {
            None => Err(TransferError::FrameTooLarge),
            Some(announcement) => Ok(
                Transfer { phase: Phase::Idle, frame: frame.to_bytes(), announcement, secret },
            ),
        }
    }

    /// A transfer of the image bytes `payload`, wrapped in a continuation
    /// frame with their CRC-32.
    pub fn new(payload: Vec<u8>, secret: Option<[u8; 6]>) -> (out: Result<Transfer, TransferError>)
        ensures
            out.is_ok() <==> 24 + payload@.len() <= u16::MAX,
            out matches Ok(t) ==> t@ == (TransferView {
                phase: Phase::Idle,
                frame: frame_bytes(crc32_iscsi(payload@), payload@),
                crc32: crc32_iscsi(payload@),
                secret: secret_view(secret),
            }) && t@.wf(),
            out matches Err(e) ==> e == TransferError::FrameTooLarge,
    {
        let frame = ImageData::new(payload);
        Transfer::for_frame(&frame, secret)
    }

    /// Where the transfer stands.
    pub fn phase(&self) -> (phase: Phase)
        ensures
            phase == self@.phase,
    {
        self.phase
    }

    /// Number of chunks that the frame is sent in.
    pub fn chunk_total(&self) -> (n: usize)
        ensures
            n == chunk_count_of(self@.frame.len()),
            1 <= n <= 134,
    {
        proof {
            use_type_invariant(self);
        }
        chunk_count(self.frame.len())
    }

    /// Gives the transfer up.
    fn abort(&mut self, error: TransferError) -> (action: Action)
        requires
            !is_terminal(old(self)@.phase),
        ensures
            (final(self)@, action@) == old(self)@.fail(error),
    {
        proof {
            use_type_invariant(&*self);
        }
        self.phase = Phase::Failed;
        Action::Abort(error)
    }

    /// The `Continue` packet of chunk `index`, on the bulk channel.
    fn write_chunk(&self, index: u32) -> (action: Action)
        requires
            index < chunk_count_of(self@.frame.len()),
        ensures
            action@ == (ActionView::Write {
                channel: Channel::Bulk,
                bytes: chunk_bytes(self@.frame, index),
            }),
    {
        let piece = chunk(self.frame.as_slice(), index as usize);
        let packet = continue_packet(index, piece);
        Action::Write { channel: Channel::Bulk, bytes: packet.to_bytes() }
    }

    /// The step on a notification that decoded and carries the awaited
    /// handle.
    fn accept(&mut self, data: &Payload) -> (action: Action)
        requires
            expected_handle(old(self)@.phase).is_some(),
        ensures
            (final(self)@, action@) == old(self)@.advance(data@),
    {
        proof {
            use_type_invariant(&*self);
        }
        match self.phase {
            Phase::Connecting => {
                self.phase = Phase::Authenticating;
                Action::Write {
                    channel: Channel::Command,
                    bytes: auth_packet(self.secret).to_bytes(),
                }
            },
            Phase::Authenticating => {
                if self.secret.is_some() {
                    match data {
                        Payload::Auth(AuthResult::Correct) => {},
                        Payload::Auth(r) => {
                            return self.abort(TransferError::AuthRejected(*r));
                        },
                        _ => {
                            return self.abort(TransferError::StreamRejected);
                        },
                    }
                }
                self.phase = Phase::Announcing;
                Action::Write {
                    channel: Channel::Bulk,
                    bytes: start_stream_packet(&self.announcement).to_bytes(),
                }
            },
            Phase::Announcing => {
                let action = self.write_chunk(0);
                self.phase = Phase::Streaming(0);
                action
            },
            Phase::Streaming(i) => {
                let total: usize = chunk_count(self.frame.len());
                if (i as usize) + 1 < total {
                    let action = self.write_chunk(i + 1);
                    self.phase = Phase::Streaming(i + 1);
                    action
                } else {
                    self.phase = Phase::Ending;
                    Action::Write { channel: Channel::Bulk, bytes: end_stream_packet().to_bytes() }
                }
            },
            Phase::Ending => {
                match data {
                    Payload::Outcome(GenericResult::Fail) => self.abort(
                        TransferError::StreamRejected,
                    ),
                    _ => {
                        self.phase = Phase::Done;
                        Action::Complete
                    },
                }
            },
            _ => self.abort(TransferError::OutOfTurn),
        }
    }

    /// The step on an event that stops the transfer.
    fn halt(&mut self, error: TransferError) -> (action: Action)
        ensures
            (final(self)@, action@) == old(self)@.stop(error),
    {
        match self.phase {
            Phase::Done | Phase::Failed => Action::Abort(TransferError::OutOfTurn),
            _ => self.abort(error),
        }
    }

    /// Takes one step: in `Idle`, `Begin` sends `Connect`; in a phase that
    /// awaits a notification, the buffer is decoded and its handle held
    /// against the command sent, and the transfer moves on or is given up;
    /// a timeout or a cancellation gives up a running transfer. A write is
    /// asked for only where the step leads to a phase that awaits its
    /// answer.
    pub fn step(&mut self, event: &Event) -> (action: Action)
        ensures
            final(self)@ == old(self)@.step(event@).0,
            action@ == old(self)@.step(event@).1,
            final(self)@.wf(),
            old(self)@.wf(),
    {
        proof {
            use_type_invariant(&*self);
            lemma_step_keeps_wf(self@, event@);
        }
        match event {
            Event::Begin => {
                match self.phase {
                    Phase::Idle => {
                        self.phase = Phase::Connecting;
                        Action::Write {
                            channel: Channel::Command,
                            bytes: connect_packet().to_bytes(),
                        }
                    },
                    _ => self.halt(TransferError::OutOfTurn),
                }
            },
            Event::TimedOut => self.halt(TransferError::TimedOut),
            Event::Cancelled => self.halt(TransferError::Cancelled),
            Event::Notified(buf) => {
                let expected = match self.awaited() {
                    None => {
                        return self.halt(TransferError::OutOfTurn);
                    },
                    Some(h) => h,
                };
                match decode_notification(buf.as_slice()) {
                    Err(e) => self.abort(TransferError::Decode(e)),
                    Ok(n) => {
                        if n.handle != expected {
                            self.abort(
                                TransferError::HandleMismatch { expected, received: n.handle },
                            )
                        } else {
                            self.accept(&n.data)
                        }
                    },
                }
            },
        }
    }

    /// The handle that the awaited notification must carry, if one is
    /// awaited.
    pub fn awaited(&self) -> (handle: Option<Handle>)
        ensures
            handle == expected_handle(self@.phase),
    {
        match self.phase {
            Phase::Connecting => Some(Handle::Connect),
            Phase::Authenticating => Some(Handle::TestPass),
            Phase::Announcing => Some(Handle::StartStream),
            Phase::Streaming(_) => Some(Handle::Continue),
            Phase::Ending => Some(Handle::EndStream),
            _ => None,
        }
    }
}

/// The sixteen hexadecimal digits, lower case.
pub open spec fn hex_digits() -> Seq<char> {
    seq!['0', '1', '2', '3', '4', '5', '6', '7', '8', '9', 'a', 'b', 'c', 'd', 'e', 'f']
}

/// A byte as two hexadecimal digits and a trailing space.
pub open spec fn byte_hex(b: u8) -> Seq<char> {
    seq![hex_digits()[b as int / 16], hex_digits()[b as int % 16], ' ']
}

/// Bytes as hexadecimal digits, each byte followed by a space.
pub open spec fn bytes_hex(bytes: Seq<u8>) -> Seq<char>
    decreases bytes.len(),
{
    if bytes.len() == 0 {
        Seq::empty()
    } else {
        bytes_hex(bytes.drop_last()) + byte_hex(bytes.last())
    }
}

/// A diagnostic line: the message, a space, and the bytes in hexadecimal.
pub open spec fn hex_line(message: Seq<char>, bytes: Seq<u8>) -> Seq<char> {
    message + seq![' '] + bytes_hex(bytes)
}

/// The hexadecimal digit of a value under sixteen.
fn hex_digit(n: u8) -> (digit: &'static str)
    requires
        n < 16,
    ensures
        digit@ == seq![hex_digits()[n as int]],
{
    proof {
        reveal_strlit("0");
        reveal_strlit("1");
        reveal_strlit("2");
        reveal_strlit("3");
        reveal_strlit("4");
        reveal_strlit("5");
        reveal_strlit("6");
        reveal_strlit("7");
        reveal_strlit("8");
        reveal_strlit("9");
        reveal_strlit("a");
        reveal_strlit("b");
        reveal_strlit("c");
        reveal_strlit("d");
        reveal_strlit("e");
        reveal_strlit("f");
    }
    let digit = match n {
        0 => "0",
        1 => "1",
        2 => "2",
        3 => "3",
        4 => "4",
        5 => "5",
        6 => "6",
        7 => "7",
        8 => "8",
        9 => "9",
        10 => "a",
        11 => "b",
        12 => "c",
        13 => "d",
        14 => "e",
        _ => "f",
    };
    assert(digit@ =~= seq![hex_digits()[n as int]]);
    digit
}

/// Formats a diagnostic line for a packet or a notification: the message, a
/// space, then each byte as two lower-case hexadecimal digits and a space.
pub fn print_bytes_hex(message: &str, bytes: &[u8]) -> (line: String)
    ensures
        line@ == hex_line(message@, bytes@),
{
    let mut output = String::from_str(message);
    output.append(" ");
    proof {
        reveal_strlit(" ");
        assert(output@ =~= message@ + seq![' '] + bytes_hex(bytes@.take(0)));
    }
    let mut i: usize = 0;
    while i < bytes.len()
        invariant
            i <= bytes.len(),
            output@ == message@ + seq![' '] + bytes_hex(bytes@.take(i as int)),
        decreases bytes.len() - i,
    {
        let byte: u8 = bytes[i];
        output.append(hex_digit(byte / 16));
        output.append(hex_digit(byte % 16));
        output.append(" ");
        i += 1;
        proof {
            reveal_strlit(" ");
            assert(bytes@.take(i as int).drop_last() =~= bytes@.take(i - 1));
            assert(output@ =~= message@ + seq![' '] + bytes_hex(bytes@.take(i as int)));
        }
    }
    assert(bytes@.take(i as int) =~= bytes@);
    output
}

} // verus!
