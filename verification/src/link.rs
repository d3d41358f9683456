//! Linking a chain of elements, pair by pair.
//!
//! The pairs are linked in order and the chain stops at the first pair that
//! does not link: the pairs after it are never tried, and the pairs before
//! it stay linked. Nothing is undone.

use vstd::prelude::*;
use crate::element::Element;
use crate::engine::{run, Machine, Reply, Request, Step};

verus! {

/// A chain that waits for the engine's answer on one of its pairs.
#[derive(Debug, PartialEq)]
pub struct LinkChain<'a> {
    /// The elements of the chain, in order.
    pub elements: &'a [&'a Element],
    /// The pair that the engine was asked to link: the element at this
    /// place and the one after it.
    pub next: usize,
}

impl<'a> LinkChain<'a> {
    /// The call that links the pair at place `i` of a chain.
    pub open spec fn pair(elements: Seq<&Element>, i: int) -> Request<'static> {
        Request::Link { src: elements[i].handle(), dst: elements[i + 1].handle() }
    }

    /// The first step of linking a chain: the first pair, or the end at
    /// once, with success, where the chain has no pair at all.
    pub open spec fn begun(elements: &'a [&'a Element]) -> Step<'static, LinkChain<'a>, bool> {
        if elements@.len() < 2 {
            Step::Done(true)
        } else {
            Step::Call(LinkChain { elements, next: 0 }, LinkChain::pair(elements@, 0))
        }
    }

    proof fn lemma_run_from(elements: &'a [&'a Element], replies: Seq<Reply>, j: int, k: int)
        requires
            elements@.len() >= 2,
            elements@.len() <= usize::MAX,
            0 <= j <= k <= elements@.len() - 1,
            j < elements@.len() - 1,
            replies.len() >= elements@.len() - 1 - j,
            forall|i: int| j <= i < k ==> (#[trigger] replies[i - j]).spec_is_true(),
            k < elements@.len() - 1 ==> !replies[k - j].spec_is_true(),
        ensures
            ({
                let pairs = elements@.len() - 1;
                let tried = if k < pairs {
                    k + 1
                } else {
                    pairs
                };
                let done = run(
                    Step::Call(
                        LinkChain { elements, next: j as usize },
                        LinkChain::pair(elements@, j),
                    ),
                    replies,
                );
                &&& done.result == Some(k == pairs)
                &&& done.calls == Seq::new(
                    (tried - j) as nat,
                    |i: int| LinkChain::pair(elements@, j + i),
                )
            }),
        decreases elements@.len() - j,
    {
        let pairs = elements@.len() - 1;
        let tried = if k < pairs {
            k + 1
        } else {
            pairs
        };
        let machine = LinkChain { elements, next: j as usize };
        let first = LinkChain::pair(elements@, j);
        let done = run(Step::<LinkChain, bool>::Call(machine, first), replies);
        let expected = Seq::new((tried - j) as nat, |i: int| LinkChain::pair(elements@, j + i));
        assert(replies.len() > 0);
        if j == k {
            assert(!replies[0].spec_is_true());
            assert(machine.resumed(replies[0]) == Step::<LinkChain, bool>::Done(false));
            reveal_with_fuel(run, 2);
            assert(done.calls =~= expected);
        } else {
            assert(replies[j - j].spec_is_true());
            if j + 1 < pairs {
                let rest = replies.drop_first();
                assert forall|i: int| j + 1 <= i < k implies (#[trigger] rest[i - (j + 1)]).spec_is_true() by {
                    assert(rest[i - (j + 1)] == replies[i - j]);
                }
                assert(k < pairs ==> rest[k - (j + 1)] == replies[k - j]);
                LinkChain::lemma_run_from(elements, rest, j + 1, k);
                let tail = run(
                    Step::<LinkChain, bool>::Call(
                        LinkChain { elements, next: (j + 1) as usize },
                        LinkChain::pair(elements@, j + 1),
                    ),
                    rest,
                );
                assert(machine.resumed(replies[0]) == Step::<LinkChain, bool>::Call(
                    LinkChain { elements, next: (j + 1) as usize },
                    LinkChain::pair(elements@, j + 1),
                ));
                assert(done.calls == seq![first] + tail.calls);
                assert(done.calls =~= expected);
            } else {
                assert(k == pairs);
                assert(machine.resumed(replies[0]) == Step::<LinkChain, bool>::Done(true));
                reveal_with_fuel(run, 2);
                assert(done.calls =~= expected);
            }
        }
    }

    /// What linking a chain does, for every chain and every engine. Let the
    /// pair at place `k` be the first that the engine does not link, or `k`
    /// the number of pairs if it links them all. Then the calls made are the
    /// links of the pairs up to and including that one, in order, each once,
    /// and nothing else: no pair after it is tried and none before it is
    /// unlinked. The result is `true` exactly if every pair linked.
    pub proof fn law_stops_at_first_refusal(
        elements: &'a [&'a Element],
        replies: Seq<Reply>,
        k: int,
    )
        requires
            elements@.len() <= usize::MAX,
            replies.len() >= elements@.len() - 1,
            0 <= k,
            elements@.len() >= 2 ==> k <= elements@.len() - 1,
            elements@.len() < 2 ==> k == 0,
            forall|i: int| 0 <= i < k ==> (#[trigger] replies[i]).spec_is_true(),
            k < elements@.len() - 1 ==> !replies[k].spec_is_true(),
        ensures
            ({
                let pairs = if elements@.len() < 2 {
                    0
                } else {
                    elements@.len() - 1
                };
                let tried = if k < pairs {
                    k + 1
                } else {
                    pairs
                };
                let done = run(LinkChain::begun(elements), replies);
                &&& done.result == Some(k == pairs)
                &&& done.calls == Seq::new(tried as nat, |i: int| LinkChain::pair(elements@, i))
                &&& forall|i: int|
                    0 <= i < done.calls.len() ==> (#[trigger] done.calls[i]) is Link
            }),
    {
        if elements@.len() < 2 {
            reveal_with_fuel(run, 1);
            let done = run(LinkChain::begun(elements), replies);
            assert(done.calls =~= Seq::new(0nat, |i: int| LinkChain::pair(elements@, i)));
        } else {
            LinkChain::lemma_run_from(elements, replies, 0, k);
            let pairs = elements@.len() - 1;
            let tried = if k < pairs {
                k + 1
            } else {
                pairs
            };
            let done = run(LinkChain::begun(elements), replies);
            assert(done.calls =~= Seq::new(tried as nat, |i: int| LinkChain::pair(elements@, i)));
        }
    }
}

impl<'a, 'r> Machine<'r> for LinkChain<'a> {
    type Output = bool;

    open spec fn resumed(self, reply: Reply) -> Step<'r, Self, bool> {
        if !reply.spec_is_true() {
            Step::Done(false)
        } else if self.next + 2 < self.elements@.len() {
            Step::Call(
                LinkChain { elements: self.elements, next: (self.next + 1) as usize },
                LinkChain::pair(self.elements@, self.next + 1),
            )
        } else {
            Step::Done(true)
        }
    }

    fn resume(self, reply: &Reply) -> (step: Step<'r, Self, bool>) {
        if !reply.is_true() {
            Step::Done(false)
        } else if self.elements.len() >= 2 && self.next < self.elements.len() - 2 {
            let next: usize = self.next + 1;
            let src = self.elements[next].handle();
            let dst = self.elements[next + 1].handle();
            Step::Call(LinkChain { elements: self.elements, next }, Request::Link { src, dst })
        } else {
            Step::Done(true)
        }
    }
}

} // verus!
