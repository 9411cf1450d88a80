//! USB classes and the handles through which they answer control transfers.

use vstd::prelude::*;

use crate::control::Request;
use crate::control_pipe::ControlPipe;
use crate::descriptor::{BosWriter, DescriptorWriter};
use crate::error::UsbError;
use crate::identifiers::{EndpointAddress, InterfaceNumber, StringIndex};

verus! {

/// A USB class: one logical function of the device.
///
/// Every call comes from the device's single dispatch context. The methods
/// with a body are optional: the body is what a class does that takes no
/// interest in the call.
///
/// `control_in` and `control_out` carry a contract. A class is handed a
/// handle and may do one of three things with it: drop it, reject, or
/// accept. The handle has no other operation that changes the pipe, so the
/// postcondition holds of every implementation that can be written against
/// this crate. An implementation inside `verus!` is held to it; where it
/// drops the handle it calls [`ControlIn::lemma_dropped`] or
/// [`ControlOut::lemma_dropped`] to learn that the pipe is as it was.
pub trait UsbClass {
    /// Writes the interface, endpoint and class-specific descriptors of
    /// this class into `writer`. An error of the writer is to be returned,
    /// not swallowed.
    fn get_configuration_descriptors(&self, writer: &mut DescriptorWriter) -> Result<
        (),
        UsbError,
    >;

    /// Writes the device capabilities of this class into `writer`. An
    /// error of the writer is to be returned, not swallowed.
    ///
    /// A class that does not override this has no capabilities: it writes
    /// nothing and succeeds.
    fn get_bos_descriptors(&self, writer: &mut BosWriter) -> (r: Result<(), UsbError>)
        default_ensures
            r is Ok,
            *final(writer) == *old(writer),
    {
        let _ = writer;
        Ok(())
    }

    /// The string with the given index in the given language, or `None`
    /// if the index is not one of this class.
    ///
    /// A class that does not override this has no strings.
    fn get_string(&self, index: StringIndex, lang_id: u16) -> (r: Option<&str>)
        default_ensures
            r is None,
    {
        let _ = (index, lang_id);
        None
    }

    /// The bus was reset.
    ///
    /// A class that does not override this stays as it is.
    fn reset(&mut self)
        default_ensures
            &*final(self) == &*old(self),
    {
    }

    /// The device was configured. The class enables the endpoints of the
    /// default alternate setting of each of its interfaces.
    fn configure(&mut self);

    /// Activates an alternate setting of an interface. For an interface
    /// that is not of this class the answer is `InvalidInterface`; for one
    /// that is, but has no such setting, `InvalidAlternateSetting`.
    ///
    /// A class that does not override this owns no interface with
    /// alternate settings: it passes every interface on and stays as it is.
    fn set_alternate_setting(&mut self, interface: InterfaceNumber, alt_setting: u8) -> (r: Result<
        (),
        UsbError,
    >)
        default_ensures
            r == Err::<(), UsbError>(UsbError::InvalidInterface),
            &*final(self) == &*old(self),
    {
        let _ = interface;
        let _ = alt_setting;
        Err(UsbError::InvalidInterface)
    }

    /// The active alternate setting of an interface. For an interface that
    /// is not of this class the answer is `InvalidInterface`.
    ///
    /// A class that does not override this passes every interface on.
    fn get_alternate_setting(&self, interface: InterfaceNumber) -> (r: Result<u8, UsbError>)
        default_ensures
            r == Err::<u8, UsbError>(UsbError::InvalidInterface),
    {
        let _ = interface;
        Err(UsbError::InvalidInterface)
    }

    /// The device was polled.
    ///
    /// A class that does not override this stays as it is.
    fn poll(&mut self)
        default_ensures
            &*final(self) == &*old(self),
    {
    }

    /// A host-to-device control request waits for an answer. A class that
    /// the request is not meant for returns without touching `xfer`.
    ///
    /// A class that does not override this passes every request on: the
    /// pipe and the class stay as they are.
    fn control_out(&mut self, xfer: ControlOut<'_, '_>)
        requires
            xfer.wf(),
        ensures
            final(xfer.pipe()).wf(),
            old(xfer.pipe())@.out_turn(final(xfer.pipe())@),
        default_ensures
            *final(xfer.pipe()) == *old(xfer.pipe()),
            &*final(self) == &*old(self),
    {
        let _ = xfer;
    }

    /// A device-to-host control request waits for an answer. A class that
    /// the request is not meant for returns without touching `xfer`.
    ///
    /// A class that does not override this passes every request on: the
    /// pipe and the class stay as they are.
    fn control_in(&mut self, xfer: ControlIn<'_, '_>)
        requires
            xfer.wf(),
        ensures
            final(xfer.pipe()).wf(),
            old(xfer.pipe())@.in_turn(final(xfer.pipe())@),
        default_ensures
            *final(xfer.pipe()) == *old(xfer.pipe()),
            &*final(self) == &*old(self),
    {
        let _ = xfer;
    }

    /// The endpoint with address `addr` received a SETUP packet.
    ///
    /// A class that does not override this stays as it is.
    fn endpoint_setup(&mut self, addr: EndpointAddress)
        default_ensures
            &*final(self) == &*old(self),
    {
        let _ = addr;
    }

    /// The endpoint with address `addr` received data.
    ///
    /// A class that does not override this stays as it is.
    fn endpoint_out(&mut self, addr: EndpointAddress)
        default_ensures
            &*final(self) == &*old(self),
    {
        let _ = addr;
    }

    /// The endpoint with address `addr` finished sending data.
    ///
    /// A class that does not override this stays as it is.
    fn endpoint_in_complete(&mut self, addr: EndpointAddress)
        default_ensures
            &*final(self) == &*old(self),
    {
        let _ = addr;
    }
}

/// A mutable reference to a class is a class: every call goes on to the
/// class behind it. A device can therefore keep classes of different types
/// in one list of `&mut dyn UsbClass`.
///
/// Each method says so in its contract: the call through the reference is
/// one call of the same method of the class behind it, with the same
/// arguments and the same result, and the class behind the reference is
/// afterwards what that call made of it.
impl<T: UsbClass + ?Sized> UsbClass for &mut T {
    fn get_configuration_descriptors(&self, writer: &mut DescriptorWriter) -> (r: Result<
        (),
        UsbError,
    >)
        ensures
            exists|w: &mut DescriptorWriter|
                #![trigger call_ensures(T::get_configuration_descriptors, (&*old(*self), w), r)]
                {
                    &&& *w == *old(writer)
                    &&& *final(w) == *final(writer)
                    &&& call_ensures(T::get_configuration_descriptors, (&*old(*self), w), r)
                },
    {
        (**self).get_configuration_descriptors(writer)
    }

    fn get_bos_descriptors(&self, writer: &mut BosWriter) -> (r: Result<(), UsbError>)
        ensures
            exists|w: &mut BosWriter|
                #![trigger call_ensures(T::get_bos_descriptors, (&*old(*self), w), r)]
                {
                    &&& *w == *old(writer)
                    &&& *final(w) == *final(writer)
                    &&& call_ensures(T::get_bos_descriptors, (&*old(*self), w), r)
                },
    {
        (**self).get_bos_descriptors(writer)
    }

    fn get_string(&self, index: StringIndex, lang_id: u16) -> (r: Option<&str>)
        ensures
            call_ensures(T::get_string, (&*old(*self), index, lang_id), r),
    {
        (**self).get_string(index, lang_id)
    }

    fn reset(&mut self)
        ensures
            &*final(*final(self)) == &*final(*old(self)),
            exists|c: &mut T|
                #![trigger call_ensures(T::reset, (c,), ())]
                {
                    &&& &*c == &**old(self)
                    &&& &*final(c) == &**final(self)
                    &&& call_ensures(T::reset, (c,), ())
                },
    {
        (**self).reset()
    }

    fn configure(&mut self)
        ensures
            &*final(*final(self)) == &*final(*old(self)),
            exists|c: &mut T|
                #![trigger call_ensures(T::configure, (c,), ())]
                {
                    &&& &*c == &**old(self)
                    &&& &*final(c) == &**final(self)
                    &&& call_ensures(T::configure, (c,), ())
                },
    {
        (**self).configure()
    }

    fn set_alternate_setting(&mut self, interface: InterfaceNumber, alt_setting: u8) -> (r: Result<
        (),
        UsbError,
    >)
        ensures
            &*final(*final(self)) == &*final(*old(self)),
            exists|c: &mut T|
                #![trigger call_ensures(T::set_alternate_setting, (c, interface, alt_setting), r)]
                {
                    &&& &*c == &**old(self)
                    &&& &*final(c) == &**final(self)
                    &&& call_ensures(T::set_alternate_setting, (c, interface, alt_setting), r)
                },
    {
        (**self).set_alternate_setting(interface, alt_setting)
    }

    fn get_alternate_setting(&self, interface: InterfaceNumber) -> (r: Result<u8, UsbError>)
        ensures
            call_ensures(T::get_alternate_setting, (&*old(*self), interface), r),
    {
        (**self).get_alternate_setting(interface)
    }

    fn poll(&mut self)
        ensures
            &*final(*final(self)) == &*final(*old(self)),
            exists|c: &mut T|
                #![trigger call_ensures(T::poll, (c,), ())]
                {
                    &&& &*c == &**old(self)
                    &&& &*final(c) == &**final(self)
                    &&& call_ensures(T::poll, (c,), ())
                },
    {
        (**self).poll()
    }

    fn control_out(&mut self, xfer: ControlOut<'_, '_>)
        ensures
            &*final(*final(self)) == &*final(*old(self)),
            exists|c: &mut T|
                #![trigger call_ensures(T::control_out, (c, xfer), ())]
                {
                    &&& &*c == &**old(self)
                    &&& &*final(c) == &**final(self)
                    &&& call_ensures(T::control_out, (c, xfer), ())
                },
    {
        (**self).control_out(xfer)
    }

    fn control_in(&mut self, xfer: ControlIn<'_, '_>)
        ensures
            &*final(*final(self)) == &*final(*old(self)),
            exists|c: &mut T|
                #![trigger call_ensures(T::control_in, (c, xfer), ())]
                {
                    &&& &*c == &**old(self)
                    &&& &*final(c) == &**final(self)
                    &&& call_ensures(T::control_in, (c, xfer), ())
                },
    {
        (**self).control_in(xfer)
    }

    fn endpoint_setup(&mut self, addr: EndpointAddress)
        ensures
            &*final(*final(self)) == &*final(*old(self)),
            exists|c: &mut T|
                #![trigger call_ensures(T::endpoint_setup, (c, addr), ())]
                {
                    &&& &*c == &**old(self)
                    &&& &*final(c) == &**final(self)
                    &&& call_ensures(T::endpoint_setup, (c, addr), ())
                },
    {
        (**self).endpoint_setup(addr)
    }

    fn endpoint_out(&mut self, addr: EndpointAddress)
        ensures
            &*final(*final(self)) == &*final(*old(self)),
            exists|c: &mut T|
                #![trigger call_ensures(T::endpoint_out, (c, addr), ())]
                {
                    &&& &*c == &**old(self)
                    &&& &*final(c) == &**final(self)
                    &&& call_ensures(T::endpoint_out, (c, addr), ())
                },
    {
        (**self).endpoint_out(addr)
    }

    fn endpoint_in_complete(&mut self, addr: EndpointAddress)
        ensures
            &*final(*final(self)) == &*final(*old(self)),
            exists|c: &mut T|
                #![trigger call_ensures(T::endpoint_in_complete, (c, addr), ())]
                {
                    &&& &*c == &**old(self)
                    &&& &*final(c) == &**final(self)
                    &&& call_ensures(T::endpoint_in_complete, (c, addr), ())
                },
    {
        (**self).endpoint_in_complete(addr)
    }
}

/// The handle for one device-to-host control transfer. A class answers by
/// one of the methods that take the handle by value, or not at all; the
/// handle cannot be used twice.
pub struct ControlIn<'p, 'r> {
    pipe: &'p mut ControlPipe,
    req: &'r Request,
}

impl<'p, 'r> ControlIn<'p, 'r> {
    /// The pipe that the handle answers on.
    pub closed spec fn pipe(self) -> &'p mut ControlPipe {
        self.pipe
    }

    /// The request that the handle was made for.
    pub closed spec fn spec_request(self) -> Request {
        *self.req
    }

    /// The handle stands for a transfer that waits for its answer: the
    /// pipe waits for a class to answer a device-to-host request, and that
    /// request is the handle's.
    pub open spec fn wf(self) -> bool {
        &&& self.pipe().wf()
        &&& self.pipe()@.awaiting_in()
        &&& self.pipe()@.request == Some(self.spec_request())
    }

    /// A handle that is let go without an answer leaves the pipe as it
    /// was. A class inside `verus!` that passes a request on calls this at
    /// the point where it drops the handle.
    pub proof fn lemma_dropped(self)
        requires
            has_resolved(self),
        ensures
            *final(self.pipe()) == *self.pipe(),
    {
    }

    /// A handle for the transfer that `pipe` holds.
    pub fn new(pipe: &'p mut ControlPipe, req: &'r Request) -> (xfer: Self)
        requires
            old(pipe).wf(),
            old(pipe)@.awaiting_in(),
            old(pipe)@.request == Some(*req),
        ensures
            xfer.wf(),
            xfer.spec_request() == *req,
            *xfer.pipe() == *old(pipe),
            *final(xfer.pipe()) == *final(pipe),
    {
        ControlIn { pipe, req }
    }

    /// The request from the SETUP packet.
    pub fn request(&self) -> (req: &Request)
        ensures
            *req == self.spec_request(),
    {
        self.req
    }

    /// Accepts the transfer with a copy of `data`. Data longer than the
    /// pipe's buffer is refused with `BufferOverflow`; the transfer is then
    /// still open.
    pub fn accept_with(self, data: &[u8]) -> (r: Result<(), UsbError>)
        requires
            self.wf(),
        ensures
            final(self.pipe()).wf(),
            data@.len() <= old(self.pipe())@.capacity ==> r is Ok && final(self.pipe())@ == old(
                self.pipe(),
            )@.accept_in(data@),
            data@.len() > old(self.pipe())@.capacity ==> r == Err::<(), UsbError>(
                UsbError::BufferOverflow,
            ) && final(self.pipe())@ == old(self.pipe())@,
    {
        self.pipe.accept_in_with(data)
    }

    /// Accepts the transfer with `data` that outlives it. The bytes are
    /// sent from where they are, without a copy. Data longer than the
    /// pipe's buffer is refused as by [`ControlIn::accept_with`].
    pub fn accept_with_static(self, data: &'static [u8]) -> (r: Result<(), UsbError>)
        requires
            self.wf(),
        ensures
            final(self.pipe()).wf(),
            data@.len() <= old(self.pipe())@.capacity ==> r is Ok && final(self.pipe())@ == old(
                self.pipe(),
            )@.accept_in(data@),
            data@.len() > old(self.pipe())@.capacity ==> r == Err::<(), UsbError>(
                UsbError::BufferOverflow,
            ) && final(self.pipe())@ == old(self.pipe())@,
    {
        self.pipe.accept_in_static(data)
    }

    /// Accepts the transfer with data that `f` writes into the pipe's
    /// buffer; `f` returns the number of bytes written. See
    /// [`ControlPipe::accept_in`].
    pub fn accept(self, f: impl FnOnce(&mut [u8]) -> Result<usize, UsbError>) -> (r: Result<
        (),
        UsbError,
    >)
        requires
            self.wf(),
            forall|buf: &mut [u8]| buf@.len() == self.pipe()@.capacity ==> call_requires(f, (buf,)),
            forall|buf: &mut [u8], out: Result<usize, UsbError>|
                call_ensures(f, (buf,), out) ==> final(buf)@.len() == buf@.len(),
        ensures
            final(self.pipe()).wf(),
            old(self.pipe())@.in_turn(final(self.pipe())@),
            exists|buf: &mut [u8], out: Result<usize, UsbError>|
                #![trigger call_ensures(f, (buf,), out)]
                {
                    &&& call_ensures(f, (buf,), out)
                    &&& buf@ == old(self.pipe()).scratch()
                    &&& r == ControlPipe::in_verdict(old(self.pipe())@, out)
                    &&& final(self.pipe())@ == ControlPipe::in_outcome(
                        old(self.pipe())@,
                        out,
                        final(buf)@,
                    )
                },
    {
        self.pipe.accept_in(f)
    }

    /// Rejects the transfer: the pipe stalls.
    pub fn reject(self) -> (r: Result<(), UsbError>)
        requires
            self.wf(),
        ensures
            final(self.pipe()).wf(),
            r is Ok,
            final(self.pipe())@ == old(self.pipe())@.reject(),
    {
        self.pipe.reject()
    }
}

/// The handle for one host-to-device control transfer. A class answers by
/// one of the methods that take the handle by value, or not at all; the
/// handle cannot be used twice.
pub struct ControlOut<'p, 'r> {
    pipe: &'p mut ControlPipe,
    req: &'r Request,
}

impl<'p, 'r> ControlOut<'p, 'r> {
    /// The pipe that the handle answers on.
    pub closed spec fn pipe(self) -> &'p mut ControlPipe {
        self.pipe
    }

    /// The request that the handle was made for.
    pub closed spec fn spec_request(self) -> Request {
        *self.req
    }

    /// The handle stands for a transfer that waits for its answer: the
    /// pipe waits for a class to answer a host-to-device request, and that
    /// request is the handle's.
    pub open spec fn wf(self) -> bool {
        &&& self.pipe().wf()
        &&& self.pipe()@.awaiting_out()
        &&& self.pipe()@.request == Some(self.spec_request())
    }

    /// A handle that is let go without an answer leaves the pipe as it
    /// was. A class inside `verus!` that passes a request on calls this at
    /// the point where it drops the handle.
    pub proof fn lemma_dropped(self)
        requires
            has_resolved(self),
        ensures
            *final(self.pipe()) == *self.pipe(),
    {
    }

    /// A handle for the transfer that `pipe` holds.
    pub fn new(pipe: &'p mut ControlPipe, req: &'r Request) -> (xfer: Self)
        requires
            old(pipe).wf(),
            old(pipe)@.awaiting_out(),
            old(pipe)@.request == Some(*req),
        ensures
            xfer.wf(),
            xfer.spec_request() == *req,
            *xfer.pipe() == *old(pipe),
            *final(xfer.pipe()) == *final(pipe),
    {
        ControlOut { pipe, req }
    }

    /// The request from the SETUP packet.
    pub fn request(&self) -> (req: &Request)
        ensures
            *req == self.spec_request(),
    {
        self.req
    }

    /// The bytes that the data stage delivered; none if the request has no
    /// data stage. Their number is what the host sent, whatever length the
    /// request announced.
    pub fn data(&self) -> (data: &[u8])
        requires
            self.wf(),
        ensures
            data@ == self.pipe()@.data,
    {
        self.pipe.data()
    }

    /// Accepts the transfer: the status stage begins.
    pub fn accept(self) -> (r: Result<(), UsbError>)
        requires
            self.wf(),
        ensures
            final(self.pipe()).wf(),
            r is Ok,
            final(self.pipe())@ == old(self.pipe())@.accept_out(),
    {
        self.pipe.accept_out()
    }

    /// Rejects the transfer: the pipe stalls.
    pub fn reject(self) -> (r: Result<(), UsbError>)
        requires
            self.wf(),
        ensures
            final(self.pipe()).wf(),
            r is Ok,
            final(self.pipe())@ == old(self.pipe())@.reject(),
    {
        self.pipe.reject()
    }
}

} // verus!
