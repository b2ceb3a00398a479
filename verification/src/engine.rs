//! The token that stands for "the frontend is in use", and the availability
//! flag that it is acquired from.
//!
//! The frontend cannot serve two independent sessions at once, so at most
//! one token exists per flag at any time. A request while the token is out
//! fails cleanly; releasing the token makes the next request succeed.

use std::marker::PhantomData;
use std::rc::Rc;
use vstd::prelude::*;

verus! {

/// The availability flag of the frontend: set while no token is out.
#[derive(Debug)]
pub struct EngineFlag {
    available: bool,
}

/// An empty type which stands for the permission to use the frontend.
///
/// The token can neither be sent to nor shared with another thread.
#[derive(Debug)]
pub struct Clang {
    _marker: PhantomData<Rc<()>>,
}

impl EngineFlag {
    /// Whether a request for the token would be granted.
    pub closed spec fn available(&self) -> bool {
        self.available
    }

    /// Whether a request is granted where the flag says `available`.
    pub open spec fn granted(available: bool) -> bool {
        available
    }

    /// What the flag says after a request, granted or not, where it said
    /// `available` before: the token is out.
    pub open spec fn after_request(available: bool) -> bool {
        false
    }

    /// What the flag says after the token came back, where it said
    /// `available` before: the token is there.
    pub open spec fn after_release(available: bool) -> bool {
        true
    }

    /// A flag with no token out.
    pub fn new() -> (flag: EngineFlag)
        ensures
            flag.available(),
    {
        EngineFlag { available: true }
    }

    /// Returns whether a request for the token would be granted.
    pub fn is_available(&self) -> (r: bool)
        ensures
            r == self.available(),
    {
        self.available
    }

    /// While a token is out a request fails and leaves the token out; once
    /// the token came back a request succeeds, whatever happened before.
    pub proof fn lemma_exclusive(available: bool)
        ensures
            !Self::granted(Self::after_request(available)),
            Self::after_request(Self::after_request(available)) == Self::after_request(
                available,
            ),
            Self::granted(Self::after_release(available)),
            !Self::granted(Self::after_request(Self::after_release(available))),
    {
    }
}

impl Clang {
    /// Constructs a new `Clang`.
    ///
    /// Only one instance of `Clang` is allowed at a time: the request swaps
    /// the flag to "taken" and succeeds if the flag was "available" before.
    ///
    /// # Failures
    ///
    /// * an instance of `Clang` already exists
    pub fn new(flag: &mut EngineFlag) -> (r: Result<Clang, ()>)
        ensures
            r.is_ok() <==> EngineFlag::granted(old(flag).available()),
            final(flag).available() == EngineFlag::after_request(old(flag).available()),
    {
        let was: bool = flag.available;
        flag.available = false;
        if was {
            Ok(Clang { _marker: PhantomData })
        } else {
            Err(())
        }
    }

    /// Gives the token back: the next request will be granted.
    ///
    /// The token is to go back to the flag that granted it. A flag does not
    /// know its own token from that of another flag, so "at most one token"
    /// holds of each flag whose tokens come back to it and to no other; a
    /// process has one flag.
    pub fn release(self, flag: &mut EngineFlag)
        ensures
            final(flag).available() == EngineFlag::after_release(old(flag).available()),
    {
        flag.available = true;
    }
}

} // verus!
