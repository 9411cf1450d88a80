//! The dispatch chain: walks over the registered classes.
//!
//! The classes of a device are a slice in registration order, and every
//! walk goes through it from the front. Events are broadcast: every class
//! is notified. Control transfers, alternate settings and strings have a
//! single responder: the walk ends at the first class that answers and
//! leaves the classes behind it alone.
//!
//! What a class does when it is called is not known here. The contracts
//! therefore speak of calls: `call_ensures(C::reset, (c,), ())` says that
//! the call of `reset` through the reference `c` is a call that the class
//! can make, from the class behind `c` to the class that `final(c)` shows.

use vstd::prelude::*;

use crate::class::{ControlIn, ControlOut, UsbClass};
use crate::control_pipe::ControlPipe;
use crate::descriptor::{BosWriter, DescriptorWriter};
use crate::error::UsbError;
use crate::identifiers::{EndpointAddress, InterfaceNumber, StringIndex};

verus! {

/// An event that every class is told of.
#[derive(Clone, Copy, Debug, PartialEq, Eq)]
pub enum ClassEvent {
    /// The bus was reset.
    Reset,
    /// The device was configured.
    Configure,
    /// The device was polled.
    Poll,
    /// An endpoint received a SETUP packet.
    EndpointSetup(EndpointAddress),
    /// An endpoint received data.
    EndpointOut(EndpointAddress),
    /// An endpoint finished sending data.
    EndpointInComplete(EndpointAddress),
}

/// `i` is the position of one of the first `n` classes of a list.
pub open spec fn registered(i: int, n: nat) -> bool {
    0 <= i < n
}

/// How many classes a single-responder walk over `n` classes calls: those
/// up to the responder, or all of them if none answers.
pub open spec fn reach(responder: Option<usize>, n: nat) -> nat {
    match responder {
        Some(k) => (k + 1) as nat,
        None => n,
    }
}

/// What the class at position `j` said in a single-responder walk that
/// ended with `answer` from `responder`: the responder gave the answer and
/// every class before it passed with `InvalidInterface`.
pub open spec fn heard<T>(responder: Option<usize>, answer: Result<T, UsbError>, j: int) -> Result<
    T,
    UsbError,
> {
    if responder == Some(j as usize) {
        answer
    } else {
        Err(UsbError::InvalidInterface)
    }
}

/// Whether an answer passes the question on to the next class.
pub open spec fn passes<T>(answer: Result<T, UsbError>) -> bool {
    answer matches Err(e) && e.passes_on()
}

/// Hands one event to one class: the callback of the event is called once.
pub fn notify<C: UsbClass>(class: &mut C, event: ClassEvent)
    ensures
        event is Reset ==> exists|c: &mut C|
            #![trigger call_ensures(C::reset, (c,), ())]
            *c == *old(class) && *final(c) == *final(class) && call_ensures(C::reset, (c,), ()),
        event is Configure ==> exists|c: &mut C|
            #![trigger call_ensures(C::configure, (c,), ())]
            *c == *old(class) && *final(c) == *final(class) && call_ensures(
                C::configure,
                (c,),
                (),
            ),
        event is Poll ==> exists|c: &mut C|
            #![trigger call_ensures(C::poll, (c,), ())]
            *c == *old(class) && *final(c) == *final(class) && call_ensures(C::poll, (c,), ()),
        event matches ClassEvent::EndpointSetup(addr) ==> exists|c: &mut C|
            #![trigger call_ensures(C::endpoint_setup, (c, addr), ())]
            *c == *old(class) && *final(c) == *final(class) && call_ensures(
                C::endpoint_setup,
                (c, addr),
                (),
            ),
        event matches ClassEvent::EndpointOut(addr) ==> exists|c: &mut C|
            #![trigger call_ensures(C::endpoint_out, (c, addr), ())]
            *c == *old(class) && *final(c) == *final(class) && call_ensures(
                C::endpoint_out,
                (c, addr),
                (),
            ),
        event matches ClassEvent::EndpointInComplete(addr) ==> exists|c: &mut C|
            #![trigger call_ensures(C::endpoint_in_complete, (c, addr), ())]
            *c == *old(class) && *final(c) == *final(class) && call_ensures(
                C::endpoint_in_complete,
                (c, addr),
                (),
            ),
{
    match event {
        ClassEvent::Reset => class.reset(),
        ClassEvent::Configure => class.configure(),
        ClassEvent::Poll => class.poll(),
        ClassEvent::EndpointSetup(addr) => class.endpoint_setup(addr),
        ClassEvent::EndpointOut(addr) => class.endpoint_out(addr),
        ClassEvent::EndpointInComplete(addr) => class.endpoint_in_complete(addr),
    }
}

/// Tells every class of `event`, in registration order. No class is left
/// out and none is told twice: each class is, afterwards, what one call of
/// [`notify`] made of it.
pub fn broadcast<C: UsbClass>(classes: &mut [C], event: ClassEvent)
    ensures
        final(classes)@.len() == old(classes)@.len(),
        forall|i: int| #[trigger]
            registered(i, old(classes)@.len()) ==> exists|c: &mut C|
                #![trigger call_ensures(notify::<C>, (c, event), ())]
                *c == old(classes)@[i] && *final(c) == final(classes)@[i] && call_ensures(
                    notify::<C>,
                    (c, event),
                    (),
                ),
{
    let mut i: usize = 0;
    while i < classes.len()
        invariant
            i <= classes@.len(),
            classes@.len() == old(classes)@.len(),
            forall|j: int|
                #![trigger classes@[j]]
                i <= j < classes@.len() ==> classes@[j] == old(classes)@[j],
            forall|j: int| #[trigger]
                registered(j, i as nat) ==> exists|c: &mut C|
                    #![trigger call_ensures(notify::<C>, (c, event), ())]
                    *c == old(classes)@[j] && *final(c) == classes@[j] && call_ensures(
                        notify::<C>,
                        (c, event),
                        (),
                    ),
        decreases classes@.len() - i,
    {
        let ghost before = classes@;
        notify(&mut classes[i], event);
        i += 1;
        assert forall|j: int| #[trigger] registered(j, i as nat) implies exists|c: &mut C|
            #![trigger call_ensures(notify::<C>, (c, event), ())]
            *c == old(classes)@[j] && *final(c) == classes@[j] && call_ensures(
                notify::<C>,
                (c, event),
                (),
            ) by {
            if j < i - 1 {
                assert(registered(j, (i - 1) as nat));
                assert(classes@[j] == before[j]);
            }
        }
    }
}

/// Offers a device-to-host control transfer to the classes, in
/// registration order, until one of them answers. The result is the
/// position of the class that answered. If none did, the pipe is stalled
/// and the result is `None`.
///
/// Every class up to the responder was handed a handle for the transfer
/// as it stood at the start; the classes before the responder left the pipe
/// as it was, and the classes behind it were not called.
pub fn dispatch_control_in<C: UsbClass>(pipe: &mut ControlPipe, classes: &mut [C]) -> (responder:
    Option<usize>)
    requires
        old(pipe).wf(),
        old(pipe)@.awaiting_in(),
    ensures
        final(pipe).wf(),
        !final(pipe)@.awaiting_response(),
        final(classes)@.len() == old(classes)@.len(),
        match responder {
            Some(k) => k < old(classes)@.len() && old(pipe)@.in_turn(final(pipe)@),
            None => final(pipe)@ == old(pipe)@.reject(),
        },
        forall|j: int|
            #![trigger final(classes)@[j]]
            reach(responder, old(classes)@.len()) <= j < old(classes)@.len() ==> final(classes)@[j]
                == old(classes)@[j],
        forall|j: int| #[trigger]
            registered(j, reach(responder, old(classes)@.len())) ==> exists|
                c: &mut C,
                xfer: ControlIn,
            |
                #![trigger call_ensures(C::control_in, (c, xfer), ())]
                {
                    &&& *c == old(classes)@[j]
                    &&& *final(c) == final(classes)@[j]
                    &&& xfer.wf()
                    &&& xfer.pipe()@ == old(pipe)@
                    &&& final(xfer.pipe())@ == (if responder == Some(j as usize) {
                        final(pipe)@
                    } else {
                        old(pipe)@
                    })
                    &&& call_ensures(C::control_in, (c, xfer), ())
                },
{
    let req = match pipe.request() {
        Some(req) => req,
        None => {
            return None;
        },
    };
    let mut i: usize = 0;
    while i < classes.len()
        invariant
            pipe.wf(),
            pipe@ == old(pipe)@,
            pipe@.awaiting_in(),
            pipe@.request == Some(req),
            i <= classes@.len(),
            classes@.len() == old(classes)@.len(),
            forall|j: int|
                #![trigger classes@[j]]
                i <= j < classes@.len() ==> classes@[j] == old(classes)@[j],
            forall|j: int| #[trigger]
                registered(j, i as nat) ==> exists|c: &mut C, xfer: ControlIn|
                    #![trigger call_ensures(C::control_in, (c, xfer), ())]
                    {
                        &&& *c == old(classes)@[j]
                        &&& *final(c) == classes@[j]
                        &&& xfer.wf()
                        &&& xfer.pipe()@ == old(pipe)@
                        &&& final(xfer.pipe())@ == old(pipe)@
                        &&& call_ensures(C::control_in, (c, xfer), ())
                    },
        decreases classes@.len() - i,
    {
        let ghost before = classes@;
        classes[i].control_in(ControlIn::new(pipe, &req));
        let answered = !pipe.waiting_for_response();
        i += 1;
        assert forall|j: int| #[trigger] registered(j, i as nat) implies exists|
            c: &mut C,
            xfer: ControlIn,
        |
            #![trigger call_ensures(C::control_in, (c, xfer), ())]
            {
                &&& *c == old(classes)@[j]
                &&& *final(c) == classes@[j]
                &&& xfer.wf()
                &&& xfer.pipe()@ == old(pipe)@
                &&& final(xfer.pipe())@ == (if answered && j == i - 1 {
                    pipe@
                } else {
                    old(pipe)@
                })
                &&& call_ensures(C::control_in, (c, xfer), ())
            } by {
            if j < i - 1 {
                assert(registered(j, (i - 1) as nat));
                assert(classes@[j] == before[j]);
            }
        }
        if answered {
            assert(reach(Some((i - 1) as usize), classes@.len()) == i);
            return Some(i - 1);
        }
    }
    let _ = pipe.reject();
    None
}

/// Offers a host-to-device control transfer to the classes, in
/// registration order, until one of them answers. The result is the
/// position of the class that answered. If none did, the pipe is stalled
/// and the result is `None`.
///
/// Every class up to the responder was handed a handle for the transfer
/// as it stood at the start; the classes before the responder left the pipe
/// as it was, and the classes behind it were not called.
pub fn dispatch_control_out<C: UsbClass>(pipe: &mut ControlPipe, classes: &mut [C]) -> (responder:
    Option<usize>)
    requires
        old(pipe).wf(),
        old(pipe)@.awaiting_out(),
    ensures
        final(pipe).wf(),
        !final(pipe)@.awaiting_response(),
        final(classes)@.len() == old(classes)@.len(),
        match responder {
            Some(k) => k < old(classes)@.len() && old(pipe)@.out_turn(final(pipe)@),
            None => final(pipe)@ == old(pipe)@.reject(),
        },
        forall|j: int|
            #![trigger final(classes)@[j]]
            reach(responder, old(classes)@.len()) <= j < old(classes)@.len() ==> final(classes)@[j]
                == old(classes)@[j],
        forall|j: int| #[trigger]
            registered(j, reach(responder, old(classes)@.len())) ==> exists|
                c: &mut C,
                xfer: ControlOut,
            |
                #![trigger call_ensures(C::control_out, (c, xfer), ())]
                {
                    &&& *c == old(classes)@[j]
                    &&& *final(c) == final(classes)@[j]
                    &&& xfer.wf()
                    &&& xfer.pipe()@ == old(pipe)@
                    &&& final(xfer.pipe())@ == (if responder == Some(j as usize) {
                        final(pipe)@
                    } else {
                        old(pipe)@
                    })
                    &&& call_ensures(C::control_out, (c, xfer), ())
                },
{
    let req = match pipe.request() {
        Some(req) => req,
        None => {
            return None;
        },
    };
    let mut i: usize = 0;
    while i < classes.len()
        invariant
            pipe.wf(),
            pipe@ == old(pipe)@,
            pipe@.awaiting_out(),
            pipe@.request == Some(req),
            i <= classes@.len(),
            classes@.len() == old(classes)@.len(),
            forall|j: int|
                #![trigger classes@[j]]
                i <= j < classes@.len() ==> classes@[j] == old(classes)@[j],
            forall|j: int| #[trigger]
                registered(j, i as nat) ==> exists|c: &mut C, xfer: ControlOut|
                    #![trigger call_ensures(C::control_out, (c, xfer), ())]
                    {
                        &&& *c == old(classes)@[j]
                        &&& *final(c) == classes@[j]
                        &&& xfer.wf()
                        &&& xfer.pipe()@ == old(pipe)@
                        &&& final(xfer.pipe())@ == old(pipe)@
                        &&& call_ensures(C::control_out, (c, xfer), ())
                    },
        decreases classes@.len() - i,
    {
        let ghost before = classes@;
        classes[i].control_out(ControlOut::new(pipe, &req));
        let answered = !pipe.waiting_for_response();
        i += 1;
        assert forall|j: int| #[trigger] registered(j, i as nat) implies exists|
            c: &mut C,
            xfer: ControlOut,
        |
            #![trigger call_ensures(C::control_out, (c, xfer), ())]
            {
                &&& *c == old(classes)@[j]
                &&& *final(c) == classes@[j]
                &&& xfer.wf()
                &&& xfer.pipe()@ == old(pipe)@
                &&& final(xfer.pipe())@ == (if answered && j == i - 1 {
                    pipe@
                } else {
                    old(pipe)@
                })
                &&& call_ensures(C::control_out, (c, xfer), ())
            } by {
            if j < i - 1 {
                assert(registered(j, (i - 1) as nat));
                assert(classes@[j] == before[j]);
            }
        }
        if answered {
            assert(reach(Some((i - 1) as usize), classes@.len()) == i);
            return Some(i - 1);
        }
    }
    let _ = pipe.reject();
    None
}

/// Asks the classes, in registration order, to activate an alternate
/// setting, until one of them answers with anything but
/// `InvalidInterface`; that answer is the result. If every class passes,
/// the result is `InvalidInterface`: no class owns the interface.
///
/// The classes behind the one that answered are not called.
pub fn set_alternate_setting<C: UsbClass>(
    classes: &mut [C],
    interface: InterfaceNumber,
    alt_setting: u8,
) -> (answer: Result<(), UsbError>)
    ensures
        final(classes)@.len() == old(classes)@.len(),
        exists|responder: Option<usize>|
            #![trigger reach(responder, old(classes)@.len())]
            {
                &&& responder matches Some(k) ==> k < old(classes)@.len()
                &&& responder is None <==> passes(answer)
                &&& forall|j: int|
                    #![trigger final(classes)@[j]]
                    reach(responder, old(classes)@.len()) <= j < old(classes)@.len()
                        ==> final(classes)@[j] == old(classes)@[j]
                &&& forall|j: int| #[trigger]
                    registered(j, reach(responder, old(classes)@.len())) ==> exists|
                        c: &mut C,
                        said: Result<(), UsbError>,
                    |
                        #![trigger call_ensures(C::set_alternate_setting, (c, interface, alt_setting), said)]
                        {
                            &&& *c == old(classes)@[j]
                            &&& *final(c) == final(classes)@[j]
                            &&& said == heard(responder, answer, j)
                            &&& call_ensures(
                                C::set_alternate_setting,
                                (c, interface, alt_setting),
                                said,
                            )
                        }
            },
{
    let mut i: usize = 0;
    while i < classes.len()
        invariant
            i <= classes@.len(),
            classes@.len() == old(classes)@.len(),
            forall|j: int|
                #![trigger classes@[j]]
                i <= j < classes@.len() ==> classes@[j] == old(classes)@[j],
            forall|j: int| #[trigger]
                registered(j, i as nat) ==> exists|c: &mut C, said: Result<(), UsbError>|
                    #![trigger call_ensures(C::set_alternate_setting, (c, interface, alt_setting), said)]
                    {
                        &&& *c == old(classes)@[j]
                        &&& *final(c) == classes@[j]
                        &&& passes(said)
                        &&& call_ensures(C::set_alternate_setting, (c, interface, alt_setting), said)
                    },
        decreases classes@.len() - i,
    {
        let ghost before = classes@;
        let said = classes[i].set_alternate_setting(interface, alt_setting);
        let pass = match &said {
            Ok(_) => false,
            Err(e) => e.is_pass_through(),
        };
        i += 1;
        assert forall|j: int| #[trigger] registered(j, i as nat) implies exists|
            c: &mut C,
            told: Result<(), UsbError>,
        |
            #![trigger call_ensures(C::set_alternate_setting, (c, interface, alt_setting), told)]
            {
                &&& *c == old(classes)@[j]
                &&& *final(c) == classes@[j]
                &&& (j < i - 1 ==> passes(told))
                &&& (j == i - 1 ==> told == said)
                &&& call_ensures(C::set_alternate_setting, (c, interface, alt_setting), told)
            } by {
            if j < i - 1 {
                assert(registered(j, (i - 1) as nat));
                assert(classes@[j] == before[j]);
            }
        }
        if !pass {
            let ghost responder = Some((i - 1) as usize);
            assert(reach(responder, classes@.len()) == i);
            return said;
        }
    }
    assert(reach(None, classes@.len()) == i);
    Err(UsbError::InvalidInterface)
}

/// Asks the classes, in registration order, for the active alternate
/// setting of an interface, until one of them answers with anything but
/// `InvalidInterface`; that answer is the result. If every class passes,
/// the result is `InvalidInterface`: no class owns the interface.
pub fn get_alternate_setting<C: UsbClass>(classes: &[C], interface: InterfaceNumber) -> (answer:
    Result<u8, UsbError>)
    ensures
        exists|responder: Option<usize>|
            #![trigger reach(responder, classes@.len())]
            {
                &&& responder matches Some(k) ==> k < classes@.len()
                &&& responder is None <==> passes(answer)
                &&& forall|j: int| #[trigger]
                    registered(j, reach(responder, classes@.len())) ==> call_ensures(
                        C::get_alternate_setting,
                        (&classes@[j], interface),
                        heard(responder, answer, j),
                    )
            },
{
    let mut i: usize = 0;
    while i < classes.len()
        invariant
            i <= classes@.len(),
            forall|j: int| #[trigger]
                registered(j, i as nat) ==> call_ensures(
                    C::get_alternate_setting,
                    (&classes@[j], interface),
                    Err::<u8, UsbError>(UsbError::InvalidInterface),
                ),
        decreases classes@.len() - i,
    {
        let said = classes[i].get_alternate_setting(interface);
        let pass = match &said {
            Ok(_) => false,
            Err(e) => e.is_pass_through(),
        };
        if !pass {
            let ghost responder = Some(i);
            assert(reach(responder, classes@.len()) == i + 1);
            assert forall|j: int| #[trigger]
                registered(j, reach(responder, classes@.len())) implies call_ensures(
                C::get_alternate_setting,
                (&classes@[j], interface),
                heard(responder, said, j),
            ) by {
                if j < i {
                    assert(registered(j, i as nat));
                }
            }
            return said;
        }
        i += 1;
        assert forall|j: int| #[trigger] registered(j, i as nat) implies call_ensures(
            C::get_alternate_setting,
            (&classes@[j], interface),
            Err::<u8, UsbError>(UsbError::InvalidInterface),
        ) by {
            if j < i - 1 {
                assert(registered(j, (i - 1) as nat));
            }
        }
    }
    assert(reach(None, classes@.len()) == i);
    Err(UsbError::InvalidInterface)
}

/// Asks the classes, in registration order, for a string, until one of
/// them has it. If none has, the result is `None`.
pub fn get_string<'a, C: UsbClass>(classes: &'a [C], index: StringIndex, lang_id: u16) -> (answer:
    Option<&'a str>)
    ensures
        exists|responder: Option<usize>|
            #![trigger reach(responder, classes@.len())]
            {
                &&& responder matches Some(k) ==> k < classes@.len()
                &&& responder is None <==> answer is None
                &&& forall|j: int| #[trigger]
                    registered(j, reach(responder, classes@.len())) ==> call_ensures(
                        C::get_string,
                        (&classes@[j], index, lang_id),
                        if responder == Some(j as usize) {
                            answer
                        } else {
                            None
                        },
                    )
            },
{
    let mut i: usize = 0;
    while i < classes.len()
        invariant
            i <= classes@.len(),
            forall|j: int| #[trigger]
                registered(j, i as nat) ==> call_ensures(
                    C::get_string,
                    (&classes@[j], index, lang_id),
                    None::<&str>,
                ),
        decreases classes@.len() - i,
    {
        let said = classes[i].get_string(index, lang_id);
        if said.is_some() {
            let ghost responder = Some(i);
            assert(reach(responder, classes@.len()) == i + 1);
            assert forall|j: int| #[trigger]
                registered(j, reach(responder, classes@.len())) implies call_ensures(
                C::get_string,
                (&classes@[j], index, lang_id),
                if responder == Some(j as usize) {
                    said
                } else {
                    None
                },
            ) by {
                if j < i {
                    assert(registered(j, i as nat));
                }
            }
            return said;
        }
        i += 1;
        assert forall|j: int| #[trigger] registered(j, i as nat) implies call_ensures(
            C::get_string,
            (&classes@[j], index, lang_id),
            None::<&str>,
        ) by {
            if j < i - 1 {
                assert(registered(j, (i - 1) as nat));
            }
        }
    }
    assert(reach(None, classes@.len()) == i);
    None
}

/// `trace` records a writer along a walk over `n` classes that `stopped`
/// describes: the writer as it was handed to each class that was called,
/// and at the end the writer as the last of them left it.
pub open spec fn traces<W>(trace: Seq<W>, stopped: Option<usize>, n: nat, first: W) -> bool {
    trace.len() == reach(stopped, n) + 1 && trace[0] == first
}

/// Lets every class write its descriptors into `writer`, in registration
/// order. The first error of a class ends the walk and is the result: what
/// has been written by then is not a complete set and is not to be sent.
/// If no class fails but the writer has refused a write, so that a class
/// swallowed the refusal, the result is `BufferOverflow`.
///
/// A result of `Ok` therefore says that every class wrote and that the
/// writer lost no byte.
pub fn get_configuration_descriptors<C: UsbClass>(classes: &[C], writer: &mut DescriptorWriter) -> (answer:
    Result<(), UsbError>)
    ensures
        answer is Ok ==> !final(writer).spec_overflowed(),
        exists|stopped: Option<usize>, trace: Seq<DescriptorWriter>|
            #![trigger traces(trace, stopped, classes@.len(), *old(writer))]
            {
                &&& traces(trace, stopped, classes@.len(), *old(writer))
                &&& trace.last() == *final(writer)
                &&& stopped matches Some(k) ==> k < classes@.len() && answer is Err
                &&& stopped is None ==> answer is Ok || (answer == Err::<(), UsbError>(
                    UsbError::BufferOverflow,
                ) && final(writer).spec_overflowed())
                &&& forall|j: int| #[trigger]
                    registered(j, reach(stopped, classes@.len())) ==> exists|
                        w: &mut DescriptorWriter,
                        said: Result<(), UsbError>,
                    |
                        #![trigger call_ensures(C::get_configuration_descriptors, (&classes@[j], w), said)]
                        {
                            &&& *w == trace[j]
                            &&& *final(w) == trace[j + 1]
                            &&& if stopped == Some(j as usize) {
                                said == answer
                            } else {
                                said is Ok
                            }
                            &&& call_ensures(C::get_configuration_descriptors, (&classes@[j], w), said)
                        }
            },
{
    let ghost mut trace: Seq<DescriptorWriter> = seq![*writer];
    let mut i: usize = 0;
    while i < classes.len()
        invariant
            i <= classes@.len(),
            trace.len() == i + 1,
            trace[0] == *old(writer),
            trace[i as int] == *writer,
            forall|j: int| #[trigger]
                registered(j, i as nat) ==> exists|w: &mut DescriptorWriter, said: Result<(), UsbError>|
                    #![trigger call_ensures(C::get_configuration_descriptors, (&classes@[j], w), said)]
                    {
                        &&& *w == trace[j]
                        &&& *final(w) == trace[j + 1]
                        &&& said is Ok
                        &&& call_ensures(C::get_configuration_descriptors, (&classes@[j], w), said)
                    },
        decreases classes@.len() - i,
    {
        let ghost seen = trace;
        let said = classes[i].get_configuration_descriptors(writer);
        proof {
            trace = trace.push(*writer);
        }
        i += 1;
        assert forall|j: int| #[trigger] registered(j, i as nat) implies exists|
            w: &mut DescriptorWriter,
            told: Result<(), UsbError>,
        |
            #![trigger call_ensures(C::get_configuration_descriptors, (&classes@[j], w), told)]
            {
                &&& *w == trace[j]
                &&& *final(w) == trace[j + 1]
                &&& (j < i - 1 ==> told is Ok)
                &&& (j == i - 1 ==> told == said)
                &&& call_ensures(C::get_configuration_descriptors, (&classes@[j], w), told)
            } by {
            if j < i - 1 {
                assert(registered(j, (i - 1) as nat));
                assert(trace[j] == seen[j] && trace[j + 1] == seen[j + 1]);
            }
        }
        match said {
            Ok(()) => {},
            Err(e) => {
                let ghost stopped = Some((i - 1) as usize);
                assert(traces(trace, stopped, classes@.len(), *old(writer)));
                assert(trace.last() == *writer);
                assert forall|j: int| #[trigger]
                    registered(j, reach(stopped, classes@.len())) implies exists|
                    w: &mut DescriptorWriter,
                    told: Result<(), UsbError>,
                |
                    #![trigger call_ensures(C::get_configuration_descriptors, (&classes@[j], w), told)]
                    {
                        &&& *w == trace[j]
                        &&& *final(w) == trace[j + 1]
                        &&& if stopped == Some(j as usize) {
                            told == said
                        } else {
                            told is Ok
                        }
                        &&& call_ensures(C::get_configuration_descriptors, (&classes@[j], w), told)
                    } by {
                    assert(registered(j, i as nat));
                }
                return Err(e);
            },
        }
    }
    let answer = if writer.overflowed() {
        Err(UsbError::BufferOverflow)
    } else {
        Ok(())
    };
    proof {
        let stopped = None::<usize>;
        assert(traces(trace, stopped, classes@.len(), *old(writer)));
        assert(trace.last() == *writer);
        assert forall|j: int| #[trigger]
            registered(j, reach(stopped, classes@.len())) implies exists|
            w: &mut DescriptorWriter,
            told: Result<(), UsbError>,
        |
            #![trigger call_ensures(C::get_configuration_descriptors, (&classes@[j], w), told)]
            {
                &&& *w == trace[j]
                &&& *final(w) == trace[j + 1]
                &&& told is Ok
                &&& call_ensures(C::get_configuration_descriptors, (&classes@[j], w), told)
            } by {
            assert(registered(j, i as nat));
        }
    }
    answer
}

/// Lets every class write its device capabilities into `writer`, in registration
/// order. The first error of a class ends the walk and is the result: what
/// has been written by then is not a complete set and is not to be sent.
/// If no class fails but the writer has refused a write, so that a class
/// swallowed the refusal, the result is `BufferOverflow`.
///
/// A result of `Ok` therefore says that every class wrote and that the
/// writer lost no byte.
pub fn get_bos_descriptors<C: UsbClass>(classes: &[C], writer: &mut BosWriter) -> (answer:
    Result<(), UsbError>)
    ensures
        answer is Ok ==> !final(writer).spec_overflowed(),
        exists|stopped: Option<usize>, trace: Seq<BosWriter>|
            #![trigger traces(trace, stopped, classes@.len(), *old(writer))]
            {
                &&& traces(trace, stopped, classes@.len(), *old(writer))
                &&& trace.last() == *final(writer)
                &&& stopped matches Some(k) ==> k < classes@.len() && answer is Err
                &&& stopped is None ==> answer is Ok || (answer == Err::<(), UsbError>(
                    UsbError::BufferOverflow,
                ) && final(writer).spec_overflowed())
                &&& forall|j: int| #[trigger]
                    registered(j, reach(stopped, classes@.len())) ==> exists|
                        w: &mut BosWriter,
                        said: Result<(), UsbError>,
                    |
                        #![trigger call_ensures(C::get_bos_descriptors, (&classes@[j], w), said)]
                        {
                            &&& *w == trace[j]
                            &&& *final(w) == trace[j + 1]
                            &&& if stopped == Some(j as usize) {
                                said == answer
                            } else {
                                said is Ok
                            }
                            &&& call_ensures(C::get_bos_descriptors, (&classes@[j], w), said)
                        }
            },
{
    let ghost mut trace: Seq<BosWriter> = seq![*writer];
    let mut i: usize = 0;
    while i < classes.len()
        invariant
            i <= classes@.len(),
            trace.len() == i + 1,
            trace[0] == *old(writer),
            trace[i as int] == *writer,
            forall|j: int| #[trigger]
                registered(j, i as nat) ==> exists|w: &mut BosWriter, said: Result<(), UsbError>|
                    #![trigger call_ensures(C::get_bos_descriptors, (&classes@[j], w), said)]
                    {
                        &&& *w == trace[j]
                        &&& *final(w) == trace[j + 1]
                        &&& said is Ok
                        &&& call_ensures(C::get_bos_descriptors, (&classes@[j], w), said)
                    },
        decreases classes@.len() - i,
    {
        let ghost seen = trace;
        let said = classes[i].get_bos_descriptors(writer);
        proof {
            trace = trace.push(*writer);
        }
        i += 1;
        assert forall|j: int| #[trigger] registered(j, i as nat) implies exists|
            w: &mut BosWriter,
            told: Result<(), UsbError>,
        |
            #![trigger call_ensures(C::get_bos_descriptors, (&classes@[j], w), told)]
            {
                &&& *w == trace[j]
                &&& *final(w) == trace[j + 1]
                &&& (j < i - 1 ==> told is Ok)
                &&& (j == i - 1 ==> told == said)
                &&& call_ensures(C::get_bos_descriptors, (&classes@[j], w), told)
            } by {
            if j < i - 1 {
                assert(registered(j, (i - 1) as nat));
                assert(trace[j] == seen[j] && trace[j + 1] == seen[j + 1]);
            }
        }
        match said {
            Ok(()) => {},
            Err(e) => {
                let ghost stopped = Some((i - 1) as usize);
                assert(traces(trace, stopped, classes@.len(), *old(writer)));
                assert(trace.last() == *writer);
                assert forall|j: int| #[trigger]
                    registered(j, reach(stopped, classes@.len())) implies exists|
                    w: &mut BosWriter,
                    told: Result<(), UsbError>,
                |
                    #![trigger call_ensures(C::get_bos_descriptors, (&classes@[j], w), told)]
                    {
                        &&& *w == trace[j]
                        &&& *final(w) == trace[j + 1]
                        &&& if stopped == Some(j as usize) {
                            told == said
                        } else {
                            told is Ok
                        }
                        &&& call_ensures(C::get_bos_descriptors, (&classes@[j], w), told)
                    } by {
                    assert(registered(j, i as nat));
                }
                return Err(e);
            },
        }
    }
    let answer = if writer.overflowed() {
        Err(UsbError::BufferOverflow)
    } else {
        Ok(())
    };
    proof {
        let stopped = None::<usize>;
        assert(traces(trace, stopped, classes@.len(), *old(writer)));
        assert(trace.last() == *writer);
        assert forall|j: int| #[trigger]
            registered(j, reach(stopped, classes@.len())) implies exists|
            w: &mut BosWriter,
            told: Result<(), UsbError>,
        |
            #![trigger call_ensures(C::get_bos_descriptors, (&classes@[j], w), told)]
            {
                &&& *w == trace[j]
                &&& *final(w) == trace[j + 1]
                &&& told is Ok
                &&& call_ensures(C::get_bos_descriptors, (&classes@[j], w), told)
            } by {
            assert(registered(j, i as nat));
        }
    }
    answer
}

} // verus!
