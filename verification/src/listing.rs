//! The directory listing result: a one-shot handle with three states. It
//! starts pending, becomes ready when the outcome of the listing is delivered,
//! and is consumed when that outcome is taken, which happens at most once.
use crate::entry::VfsFile;
use std::io::Error;
use vstd::prelude::*;

verus! {

/// `std::io::Error`, carried through as an opaque value.
#[verifier::external_type_specification]
#[verifier::external_body]
pub struct ExIoError(std::io::Error);

/// What a finished listing yields: the entries of the directory in the order
/// the backend chose, or the I/O error that stopped it.
pub type ReadDirReturnType<F> = Result<Vec<F>, Error>;

/// The life of a listing. `Ready` holds the outcome until it is taken.
pub enum ListingState<T> {
    Pending,
    Ready(T),
    Consumed,
}

/// The state after an outcome is delivered: a pending listing becomes ready
/// with that outcome; a ready or consumed one does not change.
pub open spec fn after_complete<T>(state: ListingState<T>, outcome: T) -> ListingState<T> {
    match state {
        ListingState::Pending => ListingState::Ready(outcome),
        _ => state,
    }
}

/// The state after an attempt to take the outcome: a ready listing becomes
/// consumed; a pending or consumed one does not change.
pub open spec fn after_take<T>(state: ListingState<T>) -> ListingState<T> {
    match state {
        ListingState::Ready(_) => ListingState::Consumed,
        _ => state,
    }
}

/// What an attempt to take the outcome yields: the outcome of a ready
/// listing, and nothing otherwise.
pub open spec fn taken<T>(state: ListingState<T>) -> Option<T> {
    match state {
        ListingState::Ready(outcome) => Some(outcome),
        _ => None,
    }
}

/// Taking yields a value exactly from a ready listing, and a second attempt
/// right after any first one yields nothing.
pub proof fn lemma_take_at_most_once<T>(state: ListingState<T>)
    ensures
        taken(state) is Some <==> state is Ready,
        taken(after_take(state)) is None,
{
}

/// A consumed listing stays consumed: neither a late outcome nor another
/// attempt to take brings a value back.
pub proof fn lemma_consumed_is_final<T>(outcome: T)
    ensures
        after_complete(ListingState::<T>::Consumed, outcome) is Consumed,
        after_take(ListingState::<T>::Consumed) is Consumed,
{
}

/// The first outcome delivered is the one that is taken: a later delivery
/// does not replace it.
pub proof fn lemma_first_outcome_stands<T>(state: ListingState<T>, first: T, second: T)
    requires
        state is Pending,
    ensures
        taken(after_complete(after_complete(state, first), second)) == Some(first),
{
}

/// The poll-and-take surface of a listing that runs elsewhere.
pub trait PromiseResult {
    /// The entries that the listing yields.
    type Entry: VfsFile;

    /// Where the listing stands, with a view of the outcome while it is held.
    spec fn state(&self) -> ListingState<&ReadDirReturnType<Self::Entry>>;

    /// True exactly while an outcome is there and has not been taken. Does
    /// not wait.
    fn is_ready(&self) -> (r: bool)
        ensures
            r == (self.state() is Ready),
    ;

    /// Takes the outcome and consumes the listing. To call this on a listing
    /// that is not ready is a fault of the caller.
    fn take(&mut self) -> (r: ReadDirReturnType<Self::Entry>)
        requires
            old(self).state() is Ready,
        ensures
            old(self).state() == ListingState::Ready(&r),
            final(self).state() is Consumed,
    ;
}

/// The listing handle that a backend hands out and later completes.
pub struct ReadDirResult<F: VfsFile> {
    slot: ListingState<ReadDirReturnType<F>>,
}

impl<F: VfsFile> ReadDirResult<F> {
    /// Where the listing stands.
    pub closed spec fn state(&self) -> ListingState<ReadDirReturnType<F>> {
        self.slot
    }

    /// A listing whose outcome is still to come.
    pub fn pending() -> (r: Self)
        ensures
            r.state() is Pending,
    {
        ReadDirResult { slot: ListingState::Pending }
    }

    /// A listing whose outcome is known from the start.
    pub fn from_ready(outcome: ReadDirReturnType<F>) -> (r: Self)
        ensures
            r.state() == ListingState::Ready(outcome),
    {
        ReadDirResult { slot: ListingState::Ready(outcome) }
    }

    /// Delivers the outcome. Returns whether it was accepted, which is so
    /// exactly for a pending listing.
    pub fn complete(&mut self, outcome: ReadDirReturnType<F>) -> (accepted: bool)
        ensures
            accepted == (old(self).state() is Pending),
            final(self).state() == after_complete(old(self).state(), outcome),
    {
        match self.slot {
            ListingState::Pending => {
                self.slot = ListingState::Ready(outcome);
                true
            },
            _ => false,
        }
    }

    /// Takes the outcome if the listing is ready, and consumes it then. A
    /// listing that is pending or consumed yields `None` and does not change.
    pub fn try_take(&mut self) -> (r: Option<ReadDirReturnType<F>>)
        ensures
            r == taken(old(self).state()),
            final(self).state() == after_take(old(self).state()),
    {
        let mut slot = ListingState::Consumed;
        core::mem::swap(&mut self.slot, &mut slot);
        match slot {
            ListingState::Ready(outcome) => Some(outcome),
            ListingState::Pending => {
                self.slot = ListingState::Pending;
                None
            },
            ListingState::Consumed => None,
        }
    }
}

impl<F: VfsFile> PromiseResult for ReadDirResult<F> {
    type Entry = F;

    open spec fn state(&self) -> ListingState<&ReadDirReturnType<F>> {
        match ReadDirResult::state(self) {
            ListingState::Pending => ListingState::Pending,
            ListingState::Ready(outcome) => ListingState::Ready(&outcome),
            ListingState::Consumed => ListingState::Consumed,
        }
    }

    fn is_ready(&self) -> (r: bool) {
        match self.slot {
            ListingState::Ready(_) => true,
            _ => false,
        }
    }

    fn take(&mut self) -> (r: ReadDirReturnType<F>)
        ensures
            Some(r) == taken(ReadDirResult::state(old(self))),
            ReadDirResult::state(final(self)) is Consumed,
    {
        self.try_take().unwrap()
    }
}

} // verus!
