//! The element: one node of the pipeline under control.
//!
//! An element is a wrapper around one engine object and holds nothing else.
//! Each operation on it is given as a [`Step`]: the call that the engine is
//! to perform, and the operation that reads the reply.

use vstd::prelude::*;
use crate::abi::{
    Format,
    SeekFlags,
    SeekType,
    State,
    StateChangeReturn,
    CLOCK_TIME_NONE,
    SEEK_FLAG_FLUSH,
};
use crate::bus::{Bus, FindBus};
use crate::calls::{Confirm, Inspect, Measure, Settle, Settled, Transition};
use crate::clock::{Progress, Ratio, Seconds};
use crate::construct::{Construction, Duplicate, Lookup};
use crate::engine::{Machine, Reply, Request, StateReport, Step};
use crate::handle::Handle;
use crate::link::LinkChain;
use crate::object::{Object, Ownership};
use crate::pad::{FindPad, Pad};
use crate::rate::Rate;
use crate::speed::SpeedChange;

verus! {

broadcast use crate::object::group_object;

/// A wrapper around one element of the pipeline.
#[derive(Debug, PartialEq)]
pub struct Element {
    pub element: Object,
}

impl Element {
    /// The handle of the element.
    pub open spec fn spec_handle(&self) -> Handle {
        self.element.handle()
    }

    /// The element may be used: it has not been handed over to the engine.
    pub open spec fn live(&self) -> bool {
        self.element.live()
    }

    /// The owning element around `handle`.
    pub open spec fn owning(handle: Handle) -> Element {
        Element { element: Object::wrap(handle, Ownership::Owning) }
    }

    /// The element behind a pointer that came with one unit of the
    /// reference count: none for a null pointer.
    pub open spec fn made(raw: usize) -> Option<Element> {
        match Object::made(raw) {
            Some(object) => Some(Element { element: object }),
            None => None,
        }
    }

    pub(crate) fn adopt(handle: Handle) -> (e: Element)
        ensures
            e == Element::owning(handle),
            e.element.bridge() is Owning,
            e.handle() == handle,
    {
        Element { element: Object::owning(handle) }
    }

    /// Makes an element: looks up the factory `factory_name` and has it
    /// make an element named `element_name`. An empty name leaves the
    /// naming to the engine. Where the engine gives no element, the result
    /// is absent; where it gives one, the new element's floating reference
    /// is turned into an owned one, once, and the result owns it.
    pub fn new<'a>(factory_name: &'a str, element_name: &'a str) -> (step: Step<
        'a,
        Construction,
        Option<Element>,
    >)
        ensures
            step == Construction::begun(factory_name, element_name),
    {
        let instance = if element_name.is_empty() {
            None
        } else {
            Some(element_name)
        };
        Step::Call(Construction::Making, Request::FactoryMake { factory: factory_name, instance })
    }

    /// Makes an element, as [`Element::new`] does.
    pub fn factory_make<'a>(element: &'a str, name: &'a str) -> (step: Step<
        'a,
        Construction,
        Option<Element>,
    >)
        ensures
            step == Construction::begun(element, name),
    {
        Element::new(element, name)
    }

    /// What [`Element::reference`] asks for: one more unit for this
    /// element, and then a second owner of it.
    pub open spec fn referenced(&self) -> Step<'static, Duplicate, Element> {
        Step::Call(Duplicate { element: self.handle() }, Request::Ref { object: self.handle() })
    }

    /// Two owners of one element are independent. A reference takes one
    /// unit of the element's count and yields a second owner of the same
    /// handle. Whichever of the two is released then, exactly one unit goes
    /// back, the other still owns its own and can be used, and the count is
    /// what it was before the reference: at least one, until the last owner
    /// is released too. An owner that was released gives nothing back again.
    pub proof fn law_reference_outlives_release(first: Element, reply: Reply, count: int)
        requires
            first.element.bridge() is Owning,
            count >= 1,
        ensures
            first.referenced() matches Step::Call(machine, take) && machine.resumed(
                reply,
            ) matches Step::Done(copy) && {
                let object = first.handle();
                &&& copy.handle() == object
                &&& copy.element.bridge() is Owning
                &&& first.live() && copy.live()
                &&& count + take.units(object) == count + 1
                &&& copy.element.released() matches Step::Call(_, give) && count + take.units(
                    object,
                ) + give.units(object) == count
                &&& first.element.released() matches Step::Call(_, give) && count + take.units(
                    object,
                ) + give.units(object) == count
                &&& copy.element.spent().released() is Done
                &&& first.element.spent().released() is Done
            },
    {
    }

    /// A second owner of the same element: asks the engine to count one
    /// more reference, and then gives the element that owns it. This
    /// element is left as it is, and each of the two can be released on its
    /// own.
    pub fn reference(&self) -> (step: Step<'static, Duplicate, Element>)
        requires
            self.live(),
        ensures
            step == self.referenced(),
    {
        Step::Call(Duplicate { element: self.handle() }, Request::Ref { object: self.handle() })
    }

    /// Reads an element out of a property value. The result is absent
    /// where the value holds no element. Where it holds one, the engine is
    /// asked to count one more reference, and the result owns it.
    pub fn from_gvalue(value: Handle) -> (step: Step<'static, Lookup, Option<Element>>)
        ensures
            step == Lookup::begun(value),
    {
        Step::Call(Lookup::Checking { value }, Request::ValueHoldsElement { value })
    }

    /// The handle of the element: a passing view, which carries no unit of
    /// the reference count.
    #[verifier::when_used_as_spec(spec_handle)]
    pub fn handle(&self) -> (h: Handle)
        ensures
            h == self.spec_handle(),
    {
        self.element.handle()
    }

    /// Wraps a pointer to an element that a collaborator handed over
    /// together with one unit of the reference count. A null pointer is no
    /// element; any other becomes an owning wrapper, and no call is made.
    pub fn new_from_gst_element(element: usize) -> (r: Option<Element>)
        ensures
            r == Element::made(element),
            element == 0 <==> r is None,
            r matches Some(e) ==> e.element.bridge() is Owning && e.handle().address() == element,
    {
        match Object::new(element) {
            Some(object) => Some(Element { element: object }),
            None => None,
        }
    }

    /// The address of the element, to pass to the engine.
    pub fn gst_element(&self) -> (raw: usize)
        ensures
            raw == self.handle().address(),
            raw != 0,
    {
        self.element.gst_object()
    }

    /// The address of the element, to pass to a call that changes it.
    pub fn gst_element_mut(&mut self) -> (raw: usize)
        ensures
            raw == old(self).handle().address(),
            raw != 0,
            *final(self) == *old(self),
    {
        self.element.gst_object()
    }

    /// The wrapper inside.
    pub fn as_ref(&self) -> (object: &Object)
        ensures
            *object == self.element,
    {
        &self.element
    }

    /// The wrapper inside, to change its ownership in place.
    pub fn as_mut(&mut self) -> (object: &mut Object)
        ensures
            *object == old(self).element,
            final(self).element == *final(object),
    {
        &mut self.element
    }

    /// Hands the element over to the engine, for a call that takes
    /// ownership of it. Gives the bare handle and leaves the wrapper inert,
    /// so that releasing it later gives nothing back.
    pub fn transfer(&mut self) -> (handle: Handle)
        requires
            old(self).element.bridge() is Owning,
        ensures
            handle == old(self).handle(),
            final(self).element == old(self).element.spent(),
            final(self).element.bridge() is Transferred,
    {
        self.element.transfer()
    }

    /// Ends the wrapper. An owning element asks the engine to take its unit
    /// of the reference count back, once, and is inert from then on; any
    /// other asks for nothing.
    pub fn release(&mut self) -> (step: Step<'static, Settle, ()>)
        ensures
            step == old(self).element.released(),
            final(self).element == old(self).element.spent(),
            !(final(self).element.bridge() is Owning),
    {
        self.element.release()
    }

    /// Links the elements of a chain in order: the first to the second,
    /// the second to the third, and so on. The chain stops at the first pair
    /// that does not link: no later pair is tried, and the pairs linked
    /// before stay linked. The result is `true` only if every pair linked.
    ///
    /// All the elements must be in one container before they are linked.
    pub fn link_many<'a>(elements: &'a [&'a Element]) -> (step: Step<'static, LinkChain<'a>, bool>)
        requires
            forall|i: int| 0 <= i < elements@.len() ==> (#[trigger] elements@[i]).live(),
        ensures
            step == LinkChain::begun(elements),
    {
        if elements.len() < 2 {
            Step::Done(true)
        } else {
            let src = elements[0].handle();
            let dst = elements[1].handle();
            Step::Call(LinkChain { elements, next: 0 }, Request::Link { src, dst })
        }
    }

    /// Connects this element to `dst`: an output of this one to an input of
    /// `dst`, never the other way round. The engine picks the connection
    /// points and makes at most one connection. The result is `true` only
    /// if the engine reports the two as linked.
    ///
    /// Both elements must be in one container before they are linked.
    pub fn link(&self, dst: &Element) -> (step: Step<'static, Confirm, bool>)
        requires
            self.live(),
            dst.live(),
        ensures
            step == Step::<Confirm, bool>::Call(
                Confirm,
                Request::Link { src: self.handle(), dst: dst.handle() },
            ),
    {
        Step::Call(Confirm, Request::Link { src: self.handle(), dst: dst.handle() })
    }

    /// Disconnects every connection from this element to `dst`. A
    /// connection point that an earlier link asked the engine to make stays
    /// in place: to give it back is up to the caller.
    pub fn unlink(&self, dst: &Element) -> (step: Step<'static, Settle, ()>)
        requires
            self.live(),
            dst.live(),
        ensures
            step == Step::<Settle, ()>::Call(
                Settle,
                Request::Unlink { src: self.handle(), dst: dst.handle() },
            ),
    {
        Step::Call(Settle, Request::Unlink { src: self.handle(), dst: dst.handle() })
    }

    /// Asks for the element's message bus. The result is absent where the
    /// engine has none to give: only a top-level pipeline has one.
    pub fn bus(&self) -> (step: Step<'static, FindBus, Option<Bus>>)
        requires
            self.live(),
        ensures
            step == Step::<FindBus, Option<Bus>>::Call(
                FindBus,
                Request::GetBus { element: self.handle() },
            ),
    {
        Step::Call(FindBus, Request::GetBus { element: self.handle() })
    }

    /// Names the element.
    pub fn set_name<'a>(&self, name: &'a str) -> (step: Step<'a, Settle, ()>)
        requires
            self.live(),
        ensures
            step == Step::<Settle, ()>::Call(
                Settle,
                Request::SetName { object: self.handle(), name },
            ),
    {
        Step::Call(Settle, Request::SetName { object: self.handle(), name })
    }

    /// Asks the element to go to `state`. The result is the engine's
    /// answer: the change is complete, goes on in the engine's own thread,
    /// is complete without data to show, or was rejected. It is absent
    /// where the answer is none of these.
    pub fn set_state(&self, state: State) -> (step: Step<
        'static,
        Transition,
        Option<StateChangeReturn>,
    >)
        requires
            self.live(),
        ensures
            step == Step::<Transition, Option<StateChangeReturn>>::Call(
                Transition,
                Request::SetState { element: self.handle(), state },
            ),
    {
        Step::Call(Transition, Request::SetState { element: self.handle(), state })
    }

    /// Asks for the element's current and pending state and the result of
    /// its last change. This is the one call that may block: while a change
    /// goes on in the engine's own thread, the engine waits up to `timeout`
    /// nanoseconds for it to end. A timeout of zero asks once, and
    /// [`CLOCK_TIME_NONE`] waits without limit.
    pub fn get_state(&self, timeout: u64) -> (step: Step<'static, Inspect, Option<StateReport>>)
        requires
            self.live(),
        ensures
            step == Step::<Inspect, Option<StateReport>>::Call(
                Inspect,
                Request::GetState { element: self.handle(), timeout },
            ),
    {
        Step::Call(Inspect, Request::GetState { element: self.handle(), timeout })
    }

    /// Sends an event to the element. The engine takes the event over,
    /// whatever it answers. The result is `true` only if the engine reports
    /// the event as handled.
    pub fn send_event(&self, event: Handle) -> (step: Step<'static, Confirm, bool>)
        requires
            self.live(),
        ensures
            step == Step::<Confirm, bool>::Call(
                Confirm,
                Request::SendEvent { element: self.handle(), event },
            ),
    {
        Step::Call(Confirm, Request::SendEvent { element: self.handle(), event })
    }

    /// Seeks to `pos`, counted in `format` from the start of the stream.
    /// The result is `false` where the stream cannot seek or the engine
    /// rejects the seek.
    pub fn seek_simple(&self, format: Format, flags: SeekFlags, pos: i64) -> (step: Step<
        'static,
        Confirm,
        bool,
    >)
        requires
            self.live(),
        ensures
            step == Step::<Confirm, bool>::Call(
                Confirm,
                Request::SeekSimple { element: self.handle(), format, flags, position: pos },
            ),
    {
        Step::Call(
            Confirm,
            Request::SeekSimple { element: self.handle(), format, flags, position: pos },
        )
    }

    /// Seeks to the segment from `start` to `stop`, to be played at `rate`.
    /// A rate below zero plays the segment backwards.
    pub fn seek(
        &self,
        rate: Rate,
        format: Format,
        flags: SeekFlags,
        start_type: SeekType,
        start: i64,
        stop_type: SeekType,
        stop: i64,
    ) -> (step: Step<'static, Confirm, bool>)
        requires
            self.live(),
        ensures
            step == Step::<Confirm, bool>::Call(
                Confirm,
                Request::Seek {
                    element: self.handle(),
                    rate,
                    format,
                    flags,
                    start_type,
                    start,
                    stop_type,
                    stop,
                },
            ),
    {
        Step::Call(
            Confirm,
            Request::Seek {
                element: self.handle(),
                rate,
                format,
                flags,
                start_type,
                start,
                stop_type,
                stop,
            },
        )
    }

    /// Asks for the length of the stream, counted in `format`. The result
    /// is absent as long as the engine cannot tell, and never negative.
    pub fn query_duration(&self, format: Format) -> (step: Step<'static, Measure, Option<i64>>)
        requires
            self.live(),
        ensures
            step == Step::<Measure, Option<i64>>::Call(
                Measure,
                Request::QueryDuration { element: self.handle(), format },
            ),
    {
        Step::Call(Measure, Request::QueryDuration { element: self.handle(), format })
    }

    /// Asks for the position in the stream, counted in `format`. The result
    /// is absent as long as the engine cannot tell, and never negative.
    pub fn query_position(&self, format: Format) -> (step: Step<'static, Measure, Option<i64>>)
        requires
            self.live(),
        ensures
            step == Step::<Measure, Option<i64>>::Call(
                Measure,
                Request::QueryPosition { element: self.handle(), format },
            ),
    {
        Step::Call(Measure, Request::QueryPosition { element: self.handle(), format })
    }

    /// Asks for the length of the stream in nanoseconds.
    pub fn duration_ns(&self) -> (step: Step<'static, Measure, Option<i64>>)
        requires
            self.live(),
        ensures
            step == Step::<Measure, Option<i64>>::Call(
                Measure,
                Request::QueryDuration { element: self.handle(), format: Format::Time },
            ),
    {
        self.query_duration(Format::Time)
    }

    /// Asks for the position in the stream in nanoseconds.
    pub fn position_ns(&self) -> (step: Step<'static, Measure, Option<i64>>)
        requires
            self.live(),
        ensures
            step == Step::<Measure, Option<i64>>::Call(
                Measure,
                Request::QueryPosition { element: self.handle(), format: Format::Time },
            ),
    {
        self.query_position(Format::Time)
    }

    /// Asks for the length of the stream in seconds: the nanoseconds over
    /// the nanoseconds in a second. Absent where the length in nanoseconds
    /// is.
    pub fn duration_s(&self) -> (step: Step<'static, Seconds, Option<Ratio>>)
        requires
            self.live(),
        ensures
            step == Step::<Seconds, Option<Ratio>>::Call(
                Seconds,
                Request::QueryDuration { element: self.handle(), format: Format::Time },
            ),
    {
        Step::Call(Seconds, Request::QueryDuration { element: self.handle(), format: Format::Time })
    }

    /// Asks for the position in the stream in seconds: the nanoseconds
    /// over the nanoseconds in a second. Absent where the position in
    /// nanoseconds is.
    pub fn position_s(&self) -> (step: Step<'static, Seconds, Option<Ratio>>)
        requires
            self.live(),
        ensures
            step == Step::<Seconds, Option<Ratio>>::Call(
                Seconds,
                Request::QueryPosition { element: self.handle(), format: Format::Time },
            ),
    {
        Step::Call(Seconds, Request::QueryPosition { element: self.handle(), format: Format::Time })
    }

    /// Asks how far playback has come: the position over the duration,
    /// both in nanoseconds. Absent where either of the two is.
    pub fn position_pct(&self) -> (step: Step<'static, Progress, Option<Ratio>>)
        requires
            self.live(),
        ensures
            step == Progress::begun(self.handle()),
    {
        Step::Call(
            Progress::Position { element: self.handle() },
            Request::QueryPosition { element: self.handle(), format: Format::Time },
        )
    }

    /// Seeks to the position `ns`, in nanoseconds from the start of the
    /// stream, discarding what is queued.
    pub fn set_position_ns(&self, ns: i64) -> (step: Step<'static, Confirm, bool>)
        requires
            self.live(),
        ensures
            step == Step::<Confirm, bool>::Call(
                Confirm,
                Request::SeekSimple {
                    element: self.handle(),
                    format: Format::Time,
                    flags: SeekFlags { bits: SEEK_FLAG_FLUSH },
                    position: ns,
                },
            ),
    {
        self.seek_simple(Format::Time, SeekFlags::from_bits(SEEK_FLAG_FLUSH), ns)
    }

    /// Seeks to a fraction of the stream's length. `target` is that
    /// fraction of the duration in nanoseconds, and absent where the
    /// duration is: then nothing is sought, and the result is `false`.
    pub fn set_position_pct(&self, target: Option<i64>) -> (step: Step<'static, Confirm, bool>)
        requires
            self.live(),
        ensures
            step == (match target {
                Some(ns) => Step::<Confirm, bool>::Call(
                    Confirm,
                    Request::SeekSimple {
                        element: self.handle(),
                        format: Format::Time,
                        flags: SeekFlags { bits: SEEK_FLAG_FLUSH },
                        position: ns,
                    },
                ),
                None => Step::Done(false),
            }),
    {
        match target {
            Some(ns) => self.set_position_ns(ns),
            None => Step::Done(false),
        }
    }

    /// Changes the playback rate. A rate of zero pauses the element and
    /// seeks nothing. Any other rate first asks where playback stands, and
    /// fails if the engine cannot tell; a forward rate then seeks from that
    /// position to the end of the stream, any other rate from the start of
    /// the stream to that position, to be played backwards.
    pub fn set_speed(&self, speed: Rate) -> (step: Step<'static, SpeedChange, bool>)
        requires
            self.live(),
        ensures
            step == SpeedChange::begun(self.handle(), speed),
            speed.is_zero() ==> step == Step::<SpeedChange, bool>::Call(
                SpeedChange::Pausing,
                Request::SetState { element: self.handle(), state: State::Paused },
            ),
    {
        SpeedChange::begin(self.handle(), speed)
    }

    /// Asks the element to go to the null state.
    pub fn set_null_state(&self) -> (step: Step<'static, Transition, Option<StateChangeReturn>>)
        requires
            self.live(),
        ensures
            step == Step::<Transition, Option<StateChangeReturn>>::Call(
                Transition,
                Request::SetState { element: self.handle(), state: State::Null },
            ),
    {
        self.set_state(State::Null)
    }

    /// Asks the element to go to the ready state.
    pub fn set_ready_state(&self) -> (step: Step<'static, Transition, Option<StateChangeReturn>>)
        requires
            self.live(),
        ensures
            step == Step::<Transition, Option<StateChangeReturn>>::Call(
                Transition,
                Request::SetState { element: self.handle(), state: State::Ready },
            ),
    {
        self.set_state(State::Ready)
    }

    /// Asks the element to pause.
    pub fn pause(&self) -> (step: Step<'static, Transition, Option<StateChangeReturn>>)
        requires
            self.live(),
        ensures
            step == Step::<Transition, Option<StateChangeReturn>>::Call(
                Transition,
                Request::SetState { element: self.handle(), state: State::Paused },
            ),
    {
        self.set_state(State::Paused)
    }

    /// Asks the element to play.
    pub fn play(&self) -> (step: Step<'static, Transition, Option<StateChangeReturn>>)
        requires
            self.live(),
        ensures
            step == Step::<Transition, Option<StateChangeReturn>>::Call(
                Transition,
                Request::SetState { element: self.handle(), state: State::Playing },
            ),
    {
        self.set_state(State::Playing)
    }

    /// What the four state questions share: a state query that waits without
    /// limit for a change in progress, and is `true` only if the engine then
    /// reports exactly `wanted` as the current state, with success.
    pub open spec fn asked_whether(&self, wanted: State) -> Step<'static, Settled, bool> {
        Step::Call(
            Settled { wanted },
            Request::GetState { element: self.handle(), timeout: CLOCK_TIME_NONE },
        )
    }

    fn ask_whether(&self, wanted: State) -> (step: Step<'static, Settled, bool>)
        requires
            self.live(),
        ensures
            step == self.asked_whether(wanted),
    {
        Step::Call(
            Settled { wanted },
            Request::GetState { element: self.handle(), timeout: CLOCK_TIME_NONE },
        )
    }

    /// Whether the element has settled in the paused state. Waits without
    /// limit for a change in progress.
    pub fn is_paused(&self) -> (step: Step<'static, Settled, bool>)
        requires
            self.live(),
        ensures
            step == self.asked_whether(State::Paused),
    {
        self.ask_whether(State::Paused)
    }

    /// Whether the element has settled in the playing state. Waits without
    /// limit for a change in progress.
    pub fn is_playing(&self) -> (step: Step<'static, Settled, bool>)
        requires
            self.live(),
        ensures
            step == self.asked_whether(State::Playing),
    {
        self.ask_whether(State::Playing)
    }

    /// Whether the element has settled in the null state. Waits without
    /// limit for a change in progress.
    pub fn is_null_state(&self) -> (step: Step<'static, Settled, bool>)
        requires
            self.live(),
        ensures
            step == self.asked_whether(State::Null),
    {
        self.ask_whether(State::Null)
    }

    /// Whether the element has settled in the ready state. Waits without
    /// limit for a change in progress.
    pub fn is_ready_state(&self) -> (step: Step<'static, Settled, bool>)
        requires
            self.live(),
        ensures
            step == self.asked_whether(State::Ready),
    {
        self.ask_whether(State::Ready)
    }

    /// Asks for the element's connection point `name`. Only a point that
    /// exists already is found: the result is absent where there is none.
    pub fn static_pad<'a>(&self, name: &'a str) -> (step: Step<'a, FindPad, Option<Pad>>)
        requires
            self.live(),
        ensures
            step == Step::<FindPad, Option<Pad>>::Call(
                FindPad,
                Request::GetStaticPad { element: self.handle(), name },
            ),
    {
        Step::Call(FindPad, Request::GetStaticPad { element: self.handle(), name })
    }

    /// Sets the property `key` of `target` to this element. The engine is
    /// given the element's handle, not a copy of the element.
    pub fn set_to<'a>(&self, key: &'a str, target: &Object) -> (step: Step<'a, Settle, ()>)
        requires
            self.live(),
            target.live(),
        ensures
            step == Step::<Settle, ()>::Call(
                Settle,
                Request::SetProperty { object: target.handle(), key, value: self.handle() },
            ),
    {
        Step::Call(
            Settle,
            Request::SetProperty { object: target.handle(), key, value: self.handle() },
        )
    }
}

impl From<Element> for Object {
    /// Gives up the element for the wrapper inside.
    fn from(b: Element) -> (object: Object) {
        b.element
    }
}

impl vstd::std_specs::convert::FromSpecImpl<Element> for Object {
    open spec fn obeys_from_spec() -> bool {
        true
    }

    open spec fn from_spec(b: Element) -> Object {
        b.element
    }
}

} // verus!
