//! Control core for the elements of a native media pipeline.
//!
//! The engine behind the pipeline counts references by hand, hands out
//! pointers that may be null, and changes state in threads of its own. This
//! crate is the part of a binding that decides: which call to make, with
//! which arguments, what a reply means, and which wrapper owns which unit of
//! a reference count. It makes no call itself. Every operation is a
//! [`engine::Step`]: either a call for the caller to perform, together with
//! the [`engine::Machine`] that reads the reply, or the result.
//!
//! - [`handle`]: addresses of engine objects, never null.
//! - [`object`]: the ownership bridge, and [`ledger`], its balance.
//! - [`abi`] and [`rate`]: the engine's numbers, and playback rates.
//! - [`engine`] and [`calls`]: calls, replies, and how replies are read.
//! - [`element`]: the element and its operations, with [`construct`],
//!   [`link`], [`speed`] and [`clock`] for those that take several calls.
//! - [`bus`] and [`pad`]: the two collaborators an element hands out.

pub mod abi;
pub mod bus;
pub mod calls;
pub mod clock;
pub mod construct;
pub mod element;
pub mod engine;
pub mod handle;
pub mod ledger;
pub mod link;
pub mod object;
pub mod pad;
pub mod rate;
pub mod speed;
