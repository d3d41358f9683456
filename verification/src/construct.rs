//! Making elements: from a factory, from a second reference, and from a
//! property value.
//!
//! Wherever the engine may hand back a null pointer, the pointer is checked
//! before anything is built on it: null gives no element, and no further
//! call is made.

use vstd::prelude::*;
use crate::element::Element;
use crate::engine::{run, Machine, Reply, Request, Step};
use crate::handle::Handle;

verus! {

/// The making of an element by a factory, waiting for a reply.
#[derive(Debug, PartialEq)]
pub enum Construction {
    /// The factory was asked for an element.
    Making,
    /// The engine was asked to turn the new element's floating reference
    /// into an owned one.
    Sinking { element: Handle },
}

impl Construction {
    /// The name to ask the factory for: none for an empty name, which
    /// leaves the choice to the engine.
    pub open spec fn instance<'a>(name: &'a str) -> Option<&'a str> {
        if name@.len() == 0 {
            None
        } else {
            Some(name)
        }
    }

    /// The first step of making an element: the call to the factory.
    pub open spec fn begun<'a>(factory_name: &'a str, element_name: &'a str) -> Step<
        'a,
        Construction,
        Option<Element>,
    > {
        Step::Call(
            Construction::Making,
            Request::FactoryMake {
                factory: factory_name,
                instance: Construction::instance(element_name),
            },
        )
    }

    /// Where the factory fails, nothing is made: the factory is the only
    /// call, and the result is no element. This holds for every reply but a
    /// pointer that is not null.
    pub proof fn law_null_is_absent<'a>(
        factory_name: &'a str,
        element_name: &'a str,
        replies: Seq<Reply>,
    )
        requires
            replies.len() >= 1,
            replies[0].spec_object() is None,
        ensures
            run(Construction::begun(factory_name, element_name), replies).result == Some(
                None::<Element>,
            ),
            run(Construction::begun(factory_name, element_name), replies).calls.len() == 1,
    {
        reveal_with_fuel(run, 3);
    }

    /// Where the factory gives an element, its floating reference is sunk
    /// exactly once, and the result owns the one unit that this takes.
    pub proof fn law_made_is_owned<'a>(
        factory_name: &'a str,
        element_name: &'a str,
        replies: Seq<Reply>,
    )
        requires
            replies.len() >= 2,
            replies[0].spec_object() is Some,
        ensures
            ({
                let made = replies[0].spec_object()->0;
                let done = run(Construction::begun(factory_name, element_name), replies);
                &&& done.calls.len() == 2
                &&& done.calls[1] == Request::RefSink { object: made }
                &&& done.calls[0].units(made) + done.calls[1].units(made) == 1
                &&& done.result == Some(Some(Element::owning(made)))
            }),
    {
        reveal_with_fuel(run, 4);
    }
}

impl<'a> Machine<'a> for Construction {
    type Output = Option<Element>;

    open spec fn resumed(self, reply: Reply) -> Step<'a, Self, Option<Element>> {
        match self {
            Construction::Making => match reply.spec_object() {
                None => Step::Done(None),
                Some(element) => Step::Call(
                    Construction::Sinking { element },
                    Request::RefSink { object: element },
                ),
            },
            Construction::Sinking { element } => Step::Done(Some(Element::owning(element))),
        }
    }

    fn resume(self, reply: &Reply) -> (step: Step<'a, Self, Option<Element>>) {
        match self {
            Construction::Making => match reply.object() {
                None => Step::Done(None),
                Some(element) => Step::Call(
                    Construction::Sinking { element },
                    Request::RefSink { object: element },
                ),
            },
            Construction::Sinking { element } => Step::Done(Some(Element::adopt(element))),
        }
    }
}

/// Waits for the engine to count one more reference to an element, and then
/// gives the element that owns that reference.
#[derive(Debug, PartialEq)]
pub struct Duplicate {
    pub element: Handle,
}

impl<'a> Machine<'a> for Duplicate {
    type Output = Element;

    open spec fn resumed(self, reply: Reply) -> Step<'a, Self, Element> {
        Step::Done(Element::owning(self.element))
    }

    fn resume(self, reply: &Reply) -> (step: Step<'a, Self, Element>) {
        Step::Done(Element::adopt(self.element))
    }
}

/// The reading of an element out of a property value, waiting for a reply.
#[derive(Debug, PartialEq)]
pub enum Lookup {
    /// The engine was asked whether the value holds an element.
    Checking { value: Handle },
    /// The engine was asked for the object that the value holds.
    Fetching,
    /// The engine was asked to count one more reference to that object.
    Taking { element: Handle },
}

impl Lookup {
    /// The first step of reading an element out of `value`.
    pub open spec fn begun(value: Handle) -> Step<'static, Lookup, Option<Element>> {
        Step::Call(Lookup::Checking { value }, Request::ValueHoldsElement { value })
    }

    /// A value that holds no element, or holds null, gives no element, and
    /// no reference is taken. A value that holds an element gives an owner
    /// of it, for which exactly one reference is taken: the value keeps its
    /// own.
    pub proof fn law_lookup(value: Handle, replies: Seq<Reply>)
        requires
            replies.len() >= 3,
        ensures
            ({
                let done = run(Lookup::begun(value), replies);
                if !replies[0].spec_is_set() {
                    done.result == Some(None::<Element>) && done.calls.len() == 1
                } else if replies[1].spec_object() is None {
                    done.result == Some(None::<Element>) && done.calls.len() == 2
                } else {
                    let held = replies[1].spec_object()->0;
                    &&& done.calls.len() == 3
                    &&& done.calls[1] == Request::ValueGetObject { value }
                    &&& done.calls[2] == Request::Ref { object: held }
                    &&& done.result == Some(Some(Element::owning(held)))
                }
            }),
    {
        reveal_with_fuel(run, 5);
        assert(replies.drop_first()[0] == replies[1]);
        assert(replies.drop_first().drop_first()[0] == replies[2]);
    }
}

impl<'a> Machine<'a> for Lookup {
    type Output = Option<Element>;

    open spec fn resumed(self, reply: Reply) -> Step<'a, Self, Option<Element>> {
        match self {
            Lookup::Checking { value } => if reply.spec_is_set() {
                Step::Call(Lookup::Fetching, Request::ValueGetObject { value })
            } else {
                Step::Done(None)
            },
            Lookup::Fetching => match reply.spec_object() {
                None => Step::Done(None),
                Some(element) => Step::Call(
                    Lookup::Taking { element },
                    Request::Ref { object: element },
                ),
            },
            Lookup::Taking { element } => Step::Done(Some(Element::owning(element))),
        }
    }

    fn resume(self, reply: &Reply) -> (step: Step<'a, Self, Option<Element>>) {
        match self {
            Lookup::Checking { value } => {
                if reply.is_set() {
                    Step::Call(Lookup::Fetching, Request::ValueGetObject { value })
                } else {
                    Step::Done(None)
                }
            },
            Lookup::Fetching => match reply.object() {
                None => Step::Done(None),
                Some(element) => Step::Call(
                    Lookup::Taking { element },
                    Request::Ref { object: element },
                ),
            },
            Lookup::Taking { element } => Step::Done(Some(Element::adopt(element))),
        }
    }
}

} // verus!
