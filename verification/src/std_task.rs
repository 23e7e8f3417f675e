//! What the verifier is told about `std::task` and `std::pin`.
//!
//! Wakers, contexts and pins are carried through as opaque values. Only
//! `Poll` is transparent: its two variants are what every future in this
//! crate decides on.

use std::pin::Pin;
use std::task::Context;
use std::task::Poll;
use std::task::Waker;
use vstd::prelude::*;

verus! {

/// `std::task::Waker`: an opaque handle that re-submits a task when woken.
#[verifier::external_type_specification]
#[verifier::external_body]
pub struct ExWaker(Waker);

/// `std::task::Context`: an opaque carrier of the waker of the current poll.
#[verifier::external_type_specification]
#[verifier::external_body]
pub struct ExContext<'a>(Context<'a>);

/// `std::task::Poll`, with both variants visible.
#[verifier::external_type_specification]
#[verifier::reject_recursive_types(T)]
pub struct ExPoll<T>(Poll<T>);

/// `std::pin::Pin`: an opaque pointer wrapper.
#[verifier::external_type_specification]
#[verifier::external_body]
#[verifier::reject_recursive_types(Ptr)]
pub struct ExPin<Ptr>(Pin<Ptr>);

/// `Context::from_waker` wraps a borrowed waker. Nothing is claimed of the
/// context it returns.
pub assume_specification<'a>[ Context::<'a>::from_waker ](waker: &'a Waker) -> (cx: Context<'a>);

/// `Context::waker` hands out the waker of the current poll. Nothing is
/// claimed of it.
pub assume_specification<'a>[ Context::<'a>::waker ](cx: &Context<'a>) -> (waker: &'a Waker);

/// `Waker::clone` makes another handle for the same task. Nothing is claimed
/// of the copy.
pub assume_specification[ <Waker as Clone>::clone ](waker: &Waker) -> (copy: Waker);

/// `Waker::wake` consumes the handle and signals its task. It returns nothing.
pub assume_specification[ Waker::wake ](waker: Waker);

} // verus!
