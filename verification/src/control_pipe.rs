//! The control pipe: one control transfer at a time, stage by stage.
//!
//! [`PipeState`] is the mathematical model of the pipe and its transitions
//! are the rules of the protocol. [`ControlPipe`] is the executable pipe; each
//! of its operations is specified as one transition of the model.

use vstd::prelude::*;

use crate::control::{Direction, Request};
use crate::error::UsbError;

verus! {

/// The stage that the control pipe is in.
#[derive(Clone, Copy, Debug, PartialEq, Eq, Structural)]
pub enum ControlState {
    /// No transfer has begun since the pipe was made.
    Idle,
    /// A request without data stage has arrived and waits for its answer.
    SetupReceived,
    /// A device-to-host request with data stage waits for a class to supply
    /// the data.
    DataStageIn,
    /// A host-to-device request with data stage: first the pipe waits for the
    /// host's data, then, with the data buffered, for a class to answer.
    DataStageOut,
    /// The host's data was accepted; the device acknowledges in the status
    /// stage.
    StatusIn,
    /// The data for the host is in the buffer; the host acknowledges in the
    /// status stage.
    StatusOut,
    /// The transfer failed: the next stage is answered with a STALL handshake.
    Stalled,
    /// The status stage has run and the transfer is over.
    Complete,
}

/// The model of a control pipe: the stage, the request of the transfer in
/// flight, the bytes in the transfer buffer and the buffer's capacity.
pub struct PipeState {
    /// The current stage.
    pub state: ControlState,
    /// The request of the current transfer; `None` before the first SETUP.
    pub request: Option<Request>,
    /// The bytes of the data stage: received from the host, or accepted for
    /// sending to the host.
    pub data: Seq<u8>,
    /// Whether the host's data stage has been delivered.
    pub data_received: bool,
    /// The capacity of the transfer buffer.
    pub capacity: nat,
}

impl PipeState {
    /// A pipe on which no transfer has begun.
    pub open spec fn idle(capacity: nat) -> PipeState {
        PipeState {
            state: ControlState::Idle,
            request: None,
            data: Seq::empty(),
            data_received: false,
            capacity,
        }
    }

    /// The stage in which a transfer opened by `req` starts: requests with a
    /// data stage go to the data stage of their direction, the others wait
    /// for an answer right away.
    pub open spec fn first_stage(req: Request) -> ControlState {
        if req.length == 0 {
            ControlState::SetupReceived
        } else if req.direction == Direction::DeviceToHost {
            ControlState::DataStageIn
        } else {
            ControlState::DataStageOut
        }
    }

    /// The invariant of the pipe: the buffered bytes fit the buffer, and the
    /// stage agrees with the request and with what is buffered.
    pub open spec fn wf(self) -> bool {
        &&& self.data.len() <= self.capacity
        &&& !self.data_received ==> (self.state is Stalled || self.state is StatusOut
            || self.state is Complete || self.data.len() == 0)
        &&& match self.state {
            ControlState::Idle => self.request is None && !self.data_received,
            ControlState::SetupReceived => {
                &&& self.request matches Some(req)
                &&& req.length == 0
                &&& !self.data_received
            },
            ControlState::DataStageIn => {
                &&& self.request matches Some(req)
                &&& req.direction == Direction::DeviceToHost
                &&& req.length > 0
                &&& !self.data_received
            },
            ControlState::DataStageOut => {
                &&& self.request matches Some(req)
                &&& req.direction == Direction::HostToDevice
                &&& req.length > 0
            },
            ControlState::StatusIn => {
                &&& self.request matches Some(req)
                &&& req.direction == Direction::HostToDevice
            },
            ControlState::StatusOut => {
                &&& self.request matches Some(req)
                &&& req.direction == Direction::DeviceToHost
                &&& self.data.len() <= req.length
                &&& !self.data_received
            },
            ControlState::Stalled => true,
            ControlState::Complete => self.request is Some,
        }
    }

    /// The pipe waits for a class to answer a device-to-host request.
    pub open spec fn awaiting_in(self) -> bool {
        &&& self.request matches Some(req)
        &&& req.direction == Direction::DeviceToHost
        &&& (self.state is SetupReceived || self.state is DataStageIn)
    }

    /// The pipe waits for a class to answer a host-to-device request: one
    /// without data stage, or one whose data has been delivered.
    pub open spec fn awaiting_out(self) -> bool {
        &&& self.request matches Some(req)
        &&& req.direction == Direction::HostToDevice
        &&& (self.state is SetupReceived || (self.state is DataStageOut && self.data_received))
    }

    /// The pipe waits for a class to answer.
    pub open spec fn awaiting_response(self) -> bool {
        self.awaiting_in() || self.awaiting_out()
    }

    /// The pipe waits for the host's data stage.
    pub open spec fn awaiting_data(self) -> bool {
        self.state is DataStageOut && !self.data_received
    }

    /// The pipe after a SETUP packet. Nothing of the state before it is left
    /// but the capacity of the buffer.
    pub open spec fn setup(self, req: Request) -> PipeState {
        PipeState {
            state: Self::first_stage(req),
            request: Some(req),
            data: Seq::empty(),
            data_received: false,
            capacity: self.capacity,
        }
    }

    /// The pipe after a failure: the stage is `Stalled`, the rest stays for
    /// inspection until the next SETUP.
    pub open spec fn stall(self) -> PipeState {
        PipeState { state: ControlState::Stalled, ..self }
    }

    /// The pipe after the host's data stage delivered `bytes`. Data that was
    /// not waited for, or that does not fit the buffer, stalls the pipe.
    pub open spec fn data_out(self, bytes: Seq<u8>) -> PipeState {
        if self.awaiting_data() && bytes.len() <= self.capacity {
            PipeState { data: bytes, data_received: true, ..self }
        } else {
            self.stall()
        }
    }

    /// The pipe after the status stage ran. A status stage that was not
    /// waited for stalls the pipe.
    pub open spec fn status_done(self) -> PipeState {
        if self.state is StatusIn || self.state is StatusOut {
            PipeState { state: ControlState::Complete, ..self }
        } else {
            self.stall()
        }
    }

    /// The number of bytes sent to the host when a class supplies `produced`
    /// bytes: never more than the host asked for.
    pub open spec fn in_length(self, produced: nat) -> nat {
        match self.request {
            Some(req) => if produced <= req.length {
                produced
            } else {
                req.length as nat
            },
            None => 0,
        }
    }

    /// The pipe after a class accepted a device-to-host request with `data`:
    /// the data, cut to the length that the host asked for, is in the buffer
    /// and the status stage is the host's.
    pub open spec fn accept_in(self, data: Seq<u8>) -> PipeState {
        PipeState {
            state: ControlState::StatusOut,
            data: data.take(self.in_length(data.len()) as int),
            ..self
        }
    }

    /// The pipe after a class accepted a host-to-device request: the status
    /// stage is the device's.
    pub open spec fn accept_out(self) -> PipeState {
        PipeState { state: ControlState::StatusIn, ..self }
    }

    /// The pipe after a class rejected the request.
    pub open spec fn reject(self) -> PipeState {
        self.stall()
    }

    /// What one class may have done to a pipe that was offered to it for a
    /// device-to-host request: nothing, a rejection, or an acceptance with
    /// data that fits the buffer.
    pub open spec fn in_turn(self, after: PipeState) -> bool {
        ||| after == self
        ||| after == self.reject()
        ||| exists|data: Seq<u8>|
            data.len() <= self.capacity && after == #[trigger] self.accept_in(data)
    }

    /// What one class may have done to a pipe that was offered to it for a
    /// host-to-device request: nothing, a rejection, or an acceptance.
    pub open spec fn out_turn(self, after: PipeState) -> bool {
        ||| after == self
        ||| after == self.reject()
        ||| after == self.accept_out()
    }
}

/// Every transition keeps the invariant of the pipe: from a well-formed
/// pipe no event and no answer leads to one that is not. In particular the
/// buffered data never exceeds the capacity of the buffer, and data
/// accepted for the host never exceeds the length that the host asked for.
pub proof fn lemma_transitions_keep_wf(pipe: PipeState, req: Request, bytes: Seq<u8>)
    requires
        pipe.wf(),
    ensures
        PipeState::idle(pipe.capacity).wf(),
        pipe.setup(req).wf(),
        pipe.data_out(bytes).wf(),
        pipe.status_done().wf(),
        pipe.stall().wf(),
        pipe.awaiting_in() && bytes.len() <= pipe.capacity ==> pipe.accept_in(bytes).wf(),
        pipe.awaiting_out() ==> pipe.accept_out().wf(),
        pipe.awaiting_response() ==> pipe.reject().wf(),
{
}

/// A SETUP packet starts afresh. The pipe after it is the same whatever
/// transfer was in flight before, finished or not: no stage, no request
/// and no buffered byte is carried over. Only the capacity of the buffer
/// is the pipe's own.
pub proof fn lemma_setup_starts_afresh(before: PipeState, other: PipeState, req: Request)
    requires
        before.capacity == other.capacity,
    ensures
        before.setup(req) == other.setup(req),
        before.setup(req) == PipeState::idle(before.capacity).setup(req),
        before.setup(req).request == Some(req),
        before.setup(req).state == PipeState::first_stage(req),
        before.setup(req).data.len() == 0,
        !before.setup(req).data_received,
{
}

/// After a SETUP packet the transfer waits for exactly one thing: for a
/// class to answer if the request has no data stage or sends data to the
/// host, for the host's data otherwise.
pub proof fn lemma_setup_offers(before: PipeState, req: Request)
    ensures
        before.setup(req).awaiting_in() <==> req.direction == Direction::DeviceToHost,
        before.setup(req).awaiting_out() <==> req.direction == Direction::HostToDevice && req.length
            == 0,
        before.setup(req).awaiting_data() <==> req.direction == Direction::HostToDevice
            && req.length > 0,
{
}

/// An answer is final. Once a class has accepted or rejected a transfer
/// the pipe no longer waits for an answer, so that no handle can be made
/// for the transfer again; and a class that did not answer left the pipe
/// as it was.
pub proof fn lemma_answer_is_final(before: PipeState, after: PipeState)
    requires
        before.wf(),
        before.awaiting_in() && before.in_turn(after) || before.awaiting_out() && before.out_turn(
            after,
        ),
    ensures
        after.wf(),
        after.awaiting_response() <==> after == before,
        !after.awaiting_response() ==> after.state is Stalled || after.state is StatusOut
            || after.state is StatusIn,
{
}

/// A rejected or unanswered transfer ends in `Stalled`, and nothing but a
/// SETUP packet leads out of `Stalled`.
pub proof fn lemma_stalled_until_setup(pipe: PipeState, bytes: Seq<u8>, req: Request)
    requires
        pipe.state is Stalled,
    ensures
        pipe.data_out(bytes).state is Stalled,
        pipe.status_done().state is Stalled,
        !pipe.awaiting_response(),
        !(pipe.setup(req).state is Stalled),
{
}

/// An accepted transfer runs to its end: the status stage follows the
/// answer, in the direction opposite to the data stage, and completes the
/// transfer.
pub proof fn lemma_accepted_completes(pipe: PipeState, data: Seq<u8>)
    requires
        pipe.wf(),
    ensures
        pipe.awaiting_in() ==> pipe.accept_in(data).state is StatusOut && pipe.accept_in(
            data,
        ).status_done().state is Complete,
        pipe.awaiting_out() ==> pipe.accept_out().state is StatusIn
            && pipe.accept_out().status_done().state is Complete,
        pipe.awaiting_in() ==> pipe.accept_in(data).data == data.take(
            pipe.in_length(data.len()) as int,
        ) && pipe.accept_in(data).data.len() <= data.len(),
        pipe.awaiting_in() && data.len() <= pipe.request.unwrap().length ==> pipe.accept_in(
            data,
        ).data == data,
{
    if pipe.awaiting_in() && data.len() <= pipe.request.unwrap().length {
        assert(data.take(data.len() as int) =~= data);
    }
}

/// The executable control pipe. It owns the transfer buffer, which is
/// allocated once and reused by every transfer.
pub struct ControlPipe {
    state: ControlState,
    request: Option<Request>,
    buf: Vec<u8>,
    len: usize,
    lent: Option<&'static [u8]>,
    data_received: bool,
}

impl View for ControlPipe {
    type V = PipeState;

    closed spec fn view(&self) -> PipeState {
        PipeState {
            state: self.state,
            request: self.request,
            data: match self.lent {
                Some(bytes) => bytes@.take(self.len as int),
                None => self.buf@.take(self.len as int),
            },
            data_received: self.data_received,
            capacity: self.buf@.len(),
        }
    }
}

impl ControlPipe {
    /// The invariant of the executable pipe: its model is well formed and
    /// the buffer holds what the model says.
    pub closed spec fn wf(&self) -> bool {
        &&& self.len <= self.buf@.len()
        &&& self.lent matches Some(bytes) ==> self.len <= bytes@.len()
        &&& self@.wf()
    }

    /// What [`ControlPipe::accept_in`] returns when its callback returned
    /// `out`: the callback's error, `BufferOverflow` for a length beyond
    /// the buffer, success otherwise.
    pub open spec fn in_verdict(before: PipeState, out: Result<usize, UsbError>) -> Result<
        (),
        UsbError,
    > {
        match out {
            Ok(n) => if n <= before.capacity {
                Ok(())
            } else {
                Err(UsbError::BufferOverflow)
            },
            Err(e) => Err(e),
        }
    }

    /// The pipe after [`ControlPipe::accept_in`] when its callback returned
    /// `out` and left `written` in the buffer: accepted with the first bytes
    /// of `written` if the callback gave a length within the buffer,
    /// unchanged otherwise.
    pub open spec fn in_outcome(
        before: PipeState,
        out: Result<usize, UsbError>,
        written: Seq<u8>,
    ) -> PipeState {
        match out {
            Ok(n) => if n <= before.capacity {
                before.accept_in(written.take(n as int))
            } else {
                before
            },
            Err(_) => before,
        }
    }

    /// The whole transfer buffer, beyond the bytes that count as data. A
    /// callback handed to [`ControlPipe::accept_in`] writes into it.
    pub closed spec fn scratch(&self) -> Seq<u8> {
        self.buf@
    }

    /// The model of a well-formed pipe is well formed, and the scratch
    /// buffer is as long as the capacity.
    pub proof fn lemma_wf(&self)
        requires
            self.wf(),
        ensures
            self@.wf(),
            self.scratch().len() == self@.capacity,
    {
    }

    /// A pipe in `Idle` with a zeroed buffer of `capacity` bytes.
    pub fn new(capacity: usize) -> (pipe: ControlPipe)
        ensures
            pipe.wf(),
            pipe@ == PipeState::idle(capacity as nat),
    {
        let mut buf: Vec<u8> = Vec::new();
        while buf.len() < capacity
            invariant
                buf@.len() <= capacity,
            decreases capacity - buf@.len(),
        {
            buf.push(0u8);
        }
        let pipe = ControlPipe {
            state: ControlState::Idle,
            request: None,
            buf,
            len: 0,
            lent: None,
            data_received: false,
        };
        assert(pipe@.data =~= Seq::<u8>::empty());
        pipe
    }

    /// The current stage.
    pub fn state(&self) -> (state: ControlState)
        ensures
            state == self@.state,
    {
        self.state
    }

    /// The request of the current transfer.
    pub fn request(&self) -> (request: Option<Request>)
        ensures
            request == self@.request,
    {
        self.request
    }

    /// The capacity of the transfer buffer.
    pub fn capacity(&self) -> (capacity: usize)
        ensures
            capacity == self@.capacity,
    {
        self.buf.len()
    }

    /// The bytes of the data stage: what the host sent, or what is to be
    /// sent to the host.
    pub fn data(&self) -> (data: &[u8])
        requires
            self.wf(),
        ensures
            data@ == self@.data,
    {
        match self.lent {
            Some(bytes) => vstd::slice::slice_subrange(bytes, 0, self.len),
            None => vstd::slice::slice_subrange(self.buf.as_slice(), 0, self.len),
        }
    }

    /// Whether the pipe waits for a class to answer a device-to-host request.
    pub fn awaiting_in(&self) -> (waiting: bool)
        ensures
            waiting == self@.awaiting_in(),
    {
        match self.request {
            Some(req) => req.direction == Direction::DeviceToHost && (self.state
                == ControlState::SetupReceived || self.state == ControlState::DataStageIn),
            None => false,
        }
    }

    /// Whether the pipe waits for a class to answer a host-to-device request.
    pub fn awaiting_out(&self) -> (waiting: bool)
        ensures
            waiting == self@.awaiting_out(),
    {
        match self.request {
            Some(req) => req.direction == Direction::HostToDevice && (self.state
                == ControlState::SetupReceived || (self.state == ControlState::DataStageOut
                && self.data_received)),
            None => false,
        }
    }

    /// Whether the pipe waits for a class to answer.
    pub fn waiting_for_response(&self) -> (waiting: bool)
        ensures
            waiting == self@.awaiting_response(),
    {
        self.awaiting_in() || self.awaiting_out()
    }

    /// A SETUP packet arrived. Whatever transfer was in flight is dropped
    /// and a new one begins.
    pub fn setup_received(&mut self, req: Request)
        requires
            old(self).wf(),
        ensures
            final(self).wf(),
            final(self)@ == old(self)@.setup(req),
    {
        self.state = if req.length == 0 {
            ControlState::SetupReceived
        } else if req.direction == Direction::DeviceToHost {
            ControlState::DataStageIn
        } else {
            ControlState::DataStageOut
        };
        self.request = Some(req);
        self.len = 0;
        self.lent = None;
        self.data_received = false;
        assert(self@.data =~= Seq::<u8>::empty());
    }

    /// The host's data stage delivered `bytes`. If the pipe waited for them
    /// and they fit the buffer they are buffered and the transfer waits for
    /// a class to answer; otherwise the pipe stalls.
    pub fn data_out_received(&mut self, bytes: &[u8])
        requires
            old(self).wf(),
        ensures
            final(self).wf(),
            final(self)@ == old(self)@.data_out(bytes@),
    {
        let expected = self.state == ControlState::DataStageOut && !self.data_received;
        if expected && bytes.len() <= self.buf.len() {
            self.lent = None;
            self.store(bytes);
            self.data_received = true;
        } else {
            self.state = ControlState::Stalled;
        }
    }

    /// The status stage ran. It completes a transfer that was in its status
    /// stage and stalls the pipe otherwise.
    pub fn status_stage_done(&mut self)
        requires
            old(self).wf(),
        ensures
            final(self).wf(),
            final(self)@ == old(self)@.status_done(),
    {
        if self.state == ControlState::StatusIn || self.state == ControlState::StatusOut {
            self.state = ControlState::Complete;
        } else {
            self.state = ControlState::Stalled;
        }
    }

    /// Copies `bytes` to the start of the buffer and makes them the data.
    fn store(&mut self, bytes: &[u8])
        requires
            bytes@.len() <= old(self).buf@.len(),
        ensures
            final(self).buf@.len() == old(self).buf@.len(),
            final(self).buf@.take(bytes@.len() as int) == bytes@,
            final(self).len == bytes@.len(),
            final(self).state == old(self).state,
            final(self).request == old(self).request,
            final(self).lent == old(self).lent,
            final(self).data_received == old(self).data_received,
    {
        let mut i: usize = 0;
        while i < bytes.len()
            invariant
                i <= bytes@.len() <= self.buf@.len(),
                self.buf@.len() == old(self).buf@.len(),
                self.buf@.take(i as int) == bytes@.take(i as int),
                self.state == old(self).state,
                self.request == old(self).request,
                self.lent == old(self).lent,
                self.data_received == old(self).data_received,
            decreases bytes@.len() - i,
        {
            self.buf[i] = bytes[i];
            i += 1;
            assert(self.buf@.take(i as int) =~= bytes@.take(i as int));
        }
        self.len = bytes.len();
        assert(bytes@.take(bytes@.len() as int) =~= bytes@);
    }

    /// The number of bytes to send when `produced` bytes were supplied.
    fn cut(&self, produced: usize) -> (n: usize)
        ensures
            n == self@.in_length(produced as nat),
            n <= produced,
    {
        match self.request {
            Some(req) => if produced <= req.length as usize {
                produced
            } else {
                req.length as usize
            },
            None => 0,
        }
    }

    /// Accepts a device-to-host request with a copy of `data`. Data longer
    /// than the buffer is refused with `BufferOverflow` and leaves the pipe
    /// as it was, still waiting for an answer.
    pub fn accept_in_with(&mut self, data: &[u8]) -> (r: Result<(), UsbError>)
        requires
            old(self).wf(),
            old(self)@.awaiting_in(),
        ensures
            final(self).wf(),
            data@.len() <= old(self)@.capacity ==> r is Ok && final(self)@ == old(self)@.accept_in(
                data@,
            ),
            data@.len() > old(self)@.capacity ==> r == Err::<(), UsbError>(UsbError::BufferOverflow)
                && final(self)@ == old(self)@,
    {
        if data.len() > self.buf.len() {
            return Err(UsbError::BufferOverflow);
        }
        let n = self.cut(data.len());
        self.lent = None;
        self.store(data);
        self.len = n;
        self.state = ControlState::StatusOut;
        assert(self@.data =~= old(self)@.accept_in(data@).data);
        Ok(())
    }

    /// Accepts a device-to-host request with `data` that outlives every
    /// transfer. The bytes are sent from where they are; the transfer buffer
    /// is not written. The limit is that of [`ControlPipe::accept_in_with`].
    pub fn accept_in_static(&mut self, data: &'static [u8]) -> (r: Result<(), UsbError>)
        requires
            old(self).wf(),
            old(self)@.awaiting_in(),
        ensures
            final(self).wf(),
            data@.len() <= old(self)@.capacity ==> r is Ok && final(self)@ == old(self)@.accept_in(
                data@,
            ),
            data@.len() > old(self)@.capacity ==> r == Err::<(), UsbError>(UsbError::BufferOverflow)
                && final(self)@ == old(self)@,
    {
        if data.len() > self.buf.len() {
            return Err(UsbError::BufferOverflow);
        }
        let n = self.cut(data.len());
        self.lent = Some(data);
        self.len = n;
        self.state = ControlState::StatusOut;
        assert(self@.data =~= old(self)@.accept_in(data@).data);
        Ok(())
    }

    /// Accepts a device-to-host request with data that `f` writes. `f` is
    /// handed the whole transfer buffer and returns how many bytes it wrote
    /// from the start. The pipe sends those bytes. If `f` fails, its error is
    /// returned; if it claims more bytes than the buffer holds, the error is
    /// `BufferOverflow`. After an error the pipe is as it was, still waiting
    /// for an answer.
    ///
    /// The second precondition says of `f` what holds of every function on a
    /// slice, that the slice keeps its length.
    pub fn accept_in<F: FnOnce(&mut [u8]) -> Result<usize, UsbError>>(&mut self, f: F) -> (r:
        Result<(), UsbError>)
        requires
            old(self).wf(),
            old(self)@.awaiting_in(),
            forall|buf: &mut [u8]| buf@.len() == old(self)@.capacity ==> call_requires(f, (buf,)),
            forall|buf: &mut [u8], out: Result<usize, UsbError>|
                call_ensures(f, (buf,), out) ==> final(buf)@.len() == buf@.len(),
        ensures
            final(self).wf(),
            old(self)@.in_turn(final(self)@),
            exists|buf: &mut [u8], out: Result<usize, UsbError>|
                #![trigger call_ensures(f, (buf,), out)]
                {
                    &&& call_ensures(f, (buf,), out)
                    &&& buf@ == old(self).scratch()
                    &&& r == Self::in_verdict(old(self)@, out)
                    &&& final(self)@ == Self::in_outcome(old(self)@, out, final(buf)@)
                },
    {
        assert(old(self)@.data.len() == 0 && old(self).len == 0);
        let out = f(self.buf.as_mut_slice());
        let r = match out {
            Ok(produced) => {
                if produced > self.buf.len() {
                    Err(UsbError::BufferOverflow)
                } else {
                    let n = self.cut(produced);
                    self.lent = None;
                    self.len = n;
                    self.state = ControlState::StatusOut;
                    assert(self.buf@.take(n as int) =~= self.buf@.take(produced as int).take(
                        n as int,
                    ));
                    Ok(())
                }
            },
            Err(e) => Err(e),
        };
        assert(self@.data =~= Self::in_outcome(old(self)@, out, self.buf@).data);
        assert(old(self)@.in_turn(self@)) by {
            if let Ok(produced) = out {
                if produced <= self.buf@.len() {
                    let data = self.buf@.take(produced as int);
                    assert(data.len() <= old(self)@.capacity);
                    assert(self@ == old(self)@.accept_in(data));
                }
            }
        }
        r
    }

    /// Accepts a host-to-device request: the data in the buffer is taken as
    /// read and the status stage begins.
    pub fn accept_out(&mut self) -> (r: Result<(), UsbError>)
        requires
            old(self).wf(),
            old(self)@.awaiting_out(),
        ensures
            final(self).wf(),
            r is Ok,
            final(self)@ == old(self)@.accept_out(),
    {
        self.state = ControlState::StatusIn;
        Ok(())
    }

    /// Rejects the request: the pipe stalls.
    pub fn reject(&mut self) -> (r: Result<(), UsbError>)
        requires
            old(self).wf(),
            old(self)@.awaiting_response(),
        ensures
            final(self).wf(),
            r is Ok,
            final(self)@ == old(self)@.reject(),
    {
        self.state = ControlState::Stalled;
        Ok(())
    }
}

} // verus!
