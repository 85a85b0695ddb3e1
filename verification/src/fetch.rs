//! A value that is asked for once and arrives later, or never.
//!
//! The program sends the request and hands what came back to `poll`, once
//! every frame. A `FetchedData` resolves at most once: when it is done it
//! holds the value or nothing, and stays as it is. To try again, make a new
//! one.

use vstd::prelude::*;

verus! {

/// What the program has for a request when it polls: nothing yet (`None`),
/// a failure of the transport (`Err`), or an answer (`Ok`), as `answered`
/// gives it: the value it stands for, or nothing where the server refused
/// or the body could not be read.
pub type Arrival<T> = Option<Result<Option<T>, String>>;

/// The state of a one-time request.
#[derive(Debug, PartialEq, Eq)]
pub struct FetchedData<T> {
    /// The value, once it has arrived and could be read.
    pub data: Option<T>,
    /// Whether the request has been answered or has failed. From then on
    /// only `data` is of any use.
    pub done: bool,
    /// What was asked for.
    pub url: String,
}

impl<T> FetchedData<T> {
    /// A request that is still out holds nothing.
    pub open spec fn wf(self) -> bool {
        !self.done ==> self.data is None
    }

    /// The state after a poll, and whether the screen has to be painted
    /// again.
    pub open spec fn poll_spec(self, arrived: Arrival<T>) -> (Self, bool) {
        if self.done {
            (self, false)
        } else {
            match arrived {
                None => (self, false),
                Some(Err(_)) => (FetchedData { data: self.data, done: true, url: self.url }, true),
                Some(Ok(value)) => (FetchedData { data: value, done: true, url: self.url }, true),
            }
        }
    }

    /// The state of a request for `url` that has just been sent.
    pub fn new(url: String) -> (r: Self)
        ensures
            r.data is None,
            !r.done,
            r.url == url,
            r.wf(),
    {
        FetchedData { data: None, done: false, url }
    }

    /// Takes what has arrived for the request, if anything. To be called
    /// every frame. Returns whether the screen has to be painted again.
    pub fn poll(&mut self, arrived: Arrival<T>) -> (repaint: bool)
        ensures
            (*final(self), repaint) == old(self).poll_spec(arrived),
            old(self).wf() ==> final(self).wf(),
            old(self).done ==> *final(self) == *old(self) && !repaint,
            !old(self).done && arrived is None ==> *final(self) == *old(self) && !repaint,
            !old(self).done && arrived is Some ==> final(self).done && repaint,
            final(self).url == old(self).url,
    {
        if !self.done {
            match arrived {
                Some(answer) => {
                    match answer {
                        Ok(value) => {
                            self.data = value;
                        },
                        Err(_) => {},
                    }
                    self.done = true;
                    return true;
                },
                None => {},
            }
        }
        false
    }
}

/// A request resolves once: after the poll that takes an arrival, whatever
/// arrives later changes nothing.
pub proof fn lemma_resolves_once<T>(state: FetchedData<T>, first: Arrival<T>, second: Arrival<T>)
    requires
        first is Some,
    ensures
        state.poll_spec(first).0.done,
        state.poll_spec(first).0.poll_spec(second) == (state.poll_spec(first).0, false),
{
}

/// An answer that cannot be read, or a failed transport, leaves a fresh
/// request done and empty; an answer that can be read leaves it done with
/// exactly the value read.
pub proof fn lemma_outcomes<T>(state: FetchedData<T>, message: String, value: T)
    requires
        state.wf(),
        !state.done,
    ensures
        state.poll_spec(Some(Err(message))).0.done,
        state.poll_spec(Some(Err(message))).0.data is None,
        state.poll_spec(Some(Ok(None))).0.done,
        state.poll_spec(Some(Ok(None))).0.data is None,
        state.poll_spec(Some(Ok(Some(value)))).0.done,
        state.poll_spec(Some(Ok(Some(value)))).0.data == Some(value),
{
}

/// What an answer stands for: the value that was read from its body where
/// the server answered with success, and nothing where it answered with any
/// other status, whatever its body holds.
pub open spec fn answered_spec<T>(ok: bool, parsed: Option<T>) -> Option<T> {
    if ok {
        parsed
    } else {
        None
    }
}

/// Decides what an answer stands for, from whether its status tells of
/// success and from what was read out of its body.
pub fn answered<T>(ok: bool, parsed: Option<T>) -> (r: Option<T>)
    ensures
        r == answered_spec(ok, parsed),
{
    if ok {
        parsed
    } else {
        None
    }
}

/// An answer without success leaves a fresh request done and empty, even
/// where its body could be read.
pub proof fn lemma_refusal_is_empty<T>(state: FetchedData<T>, parsed: Option<T>)
    requires
        state.wf(),
        !state.done,
    ensures
        state.poll_spec(Some(Ok(answered_spec(false, parsed)))).0.done,
        state.poll_spec(Some(Ok(answered_spec(false, parsed)))).0.data is None,
{
}

} // verus!
