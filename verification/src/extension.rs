//! The transaction of a request, and what binds it to the request.

use crate::error::Error;
use crate::slot::{after_leases, lease_step, lemma_at_most_one_lease, Lease, Slot};
use crate::tx::{Acquire, Pending, Tx};
use vstd::prelude::*;

verus! {

/// The states of a [`LazyTransaction`].
///
/// `state` is what a transaction can be begun from; `tx` is the transaction.
pub enum LazyTransactionState<P, R> {
    /// No transaction was begun yet.
    Unacquired { state: P },
    /// The transaction was begun, and is neither committed nor given up.
    Acquired { tx: R },
    /// The transaction is done with: it left to be committed, or none was
    /// ever begun when the request was resolved.
    Resolved,
}

/// What [`LazyTransaction::acquire`] asks of its caller.
#[derive(Clone, Copy, PartialEq, Eq, Structural, Debug)]
pub enum Step {
    /// Begin a transaction and report with [`LazyTransaction::begun`].
    Begin,
    /// Nothing: the transaction is there.
    Ready,
}

/// The lazy transaction.
pub struct LazyTransaction<P, R>(LazyTransactionState<P, R>);

impl<P, R> View for LazyTransaction<P, R> {
    type V = LazyTransactionState<P, R>;

    closed spec fn view(&self) -> LazyTransactionState<P, R> {
        self.0
    }
}

/// What [`LazyTransaction::acquire`] answers in each state.
pub open spec fn acquire_step<P, R, E>(state: LazyTransactionState<P, R>) -> Result<
    Step,
    Error<E>,
> {
    match state {
        LazyTransactionState::Unacquired { .. } => Ok(Step::Begin),
        LazyTransactionState::Acquired { .. } => Ok(Step::Ready),
        LazyTransactionState::Resolved => Err(Error::OverlappingExtractors),
    }
}

/// The state after [`LazyTransaction::begun`], and its answer.
pub open spec fn begun_step<P, R, E>(
    state: LazyTransactionState<P, R>,
    outcome: Result<R, E>,
) -> (LazyTransactionState<P, R>, Result<(), Error<E>>) {
    match outcome {
        Ok(tx) => (LazyTransactionState::Acquired { tx }, Ok(())),
        Err(error) => (state, Err(Error::Database { error })),
    }
}

/// The state after [`LazyTransaction::resolve`], and the transaction that it
/// hands out to be committed.
pub open spec fn resolve_step<P, R>(state: LazyTransactionState<P, R>) -> (
    LazyTransactionState<P, R>,
    Option<R>,
) {
    (
        LazyTransactionState::Resolved,
        match state {
            LazyTransactionState::Acquired { tx } => Some(tx),
            _ => None,
        },
    )
}

/// The state after [`LazyTransaction::commit`], and the transaction that it
/// hands out to be committed.
pub open spec fn commit_step<P, R>(state: LazyTransactionState<P, R>) -> (
    LazyTransactionState<P, R>,
    R,
)
    recommends
        state is Acquired,
{
    (LazyTransactionState::Resolved, state->tx)
}

impl<P, R> LazyTransaction<P, R> {
    /// A transaction that is yet to be begun, from `state`.
    pub fn new(state: P) -> (lazy: Self)
        ensures
            lazy@ == (LazyTransactionState::<P, R>::Unacquired { state }),
    {
        LazyTransaction(LazyTransactionState::Unacquired { state })
    }

    /// No transaction was begun yet.
    pub fn is_unacquired(&self) -> (unacquired: bool)
        ensures
            unacquired == (self@ is Unacquired),
    {
        match &self.0 {
            LazyTransactionState::Unacquired { .. } => true,
            _ => false,
        }
    }

    /// The transaction was begun, and is here.
    pub fn is_acquired(&self) -> (acquired: bool)
        ensures
            acquired == (self@ is Acquired),
    {
        match &self.0 {
            LazyTransactionState::Acquired { .. } => true,
            _ => false,
        }
    }

    /// What a transaction is begun from, as long as none was begun.
    pub fn state(&self) -> (state: Option<&P>)
        ensures
            state == (match self@ {
                LazyTransactionState::Unacquired { state } => Some(&state),
                _ => None,
            }),
    {
        match &self.0 {
            LazyTransactionState::Unacquired { state } => Some(state),
            _ => None,
        }
    }

    /// The transaction. There is one only in the state `Acquired`.
    pub fn as_ref(&self) -> (tx: &R)
        requires
            self@ is Acquired,
        ensures
            *tx == self@->tx,
    {
        match &self.0 {
            LazyTransactionState::Acquired { tx } => tx,
            _ => vstd::pervasive::unreached(),
        }
    }

    /// The transaction, to work on. There is one only in the state
    /// `Acquired`.
    pub fn as_mut(&mut self) -> (tx: &mut R)
        requires
            old(self)@ is Acquired,
        ensures
            *tx == old(self)@->tx,
            final(self)@ == (LazyTransactionState::<P, R>::Acquired { tx: *final(tx) }),
    {
        match &mut self.0 {
            LazyTransactionState::Acquired { tx } => tx,
            _ => vstd::pervasive::unreached(),
        }
    }

    /// Asks for the transaction. Where none was begun yet the caller is told
    /// to begin one; once the transaction is resolved there is none to be
    /// had. The state stays as it is.
    pub fn acquire<E>(&self) -> (step: Result<Step, Error<E>>)
        ensures
            step == acquire_step::<P, R, E>(self@),
    {
        match &self.0 {
            LazyTransactionState::Unacquired { .. } => Ok(Step::Begin),
            LazyTransactionState::Acquired { .. } => Ok(Step::Ready),
            LazyTransactionState::Resolved => Err(Error::OverlappingExtractors),
        }
    }

    /// Takes the outcome of beginning a transaction, which
    /// [`acquire`](Self::acquire) asked for. A transaction is kept; a
    /// failure is passed on as a database error, and the state stays
    /// `Unacquired`, so that beginning can be tried again.
    pub fn begun<E>(&mut self, outcome: Result<R, E>) -> (done: Result<(), Error<E>>)
        requires
            old(self)@ is Unacquired,
        ensures
            final(self)@ == begun_step(old(self)@, outcome).0,
            done == begun_step(old(self)@, outcome).1,
    {
        match outcome {
            Ok(tx) => {
                self.0 = LazyTransactionState::Acquired { tx };
                Ok(())
            },
            Err(error) => Err(Error::Database { error }),
        }
    }

    /// Resolves the transaction at the end of a request: hands out the
    /// transaction to be committed, if one was begun and is still here.
    /// Afterwards the state is `Resolved`, whatever it was.
    pub fn resolve(&mut self) -> (tx: Option<R>)
        ensures
            final(self)@ == resolve_step(old(self)@).0,
            tx == resolve_step(old(self)@).1,
    {
        let mut state = LazyTransactionState::Resolved;
        std::mem::swap(&mut self.0, &mut state);
        match state {
            LazyTransactionState::Acquired { tx } => Some(tx),
            _ => None,
        }
    }

    /// Hands out the transaction to be committed right now, ahead of the end
    /// of the request. Afterwards the state is `Resolved`.
    pub fn commit(&mut self) -> (tx: R)
        requires
            old(self)@ is Acquired,
        ensures
            final(self)@ == commit_step(old(self)@).0,
            tx == commit_step(old(self)@).1,
    {
        let mut state = LazyTransactionState::Resolved;
        std::mem::swap(&mut self.0, &mut state);
        match state {
            LazyTransactionState::Acquired { tx } => tx,
            _ => vstd::pervasive::unreached(),
        }
    }
}

/// The request extension: what binds one [`LazyTransaction`] to one request.
///
/// The transaction is handed to one consumer at a time, and comes back when
/// the consumer lets go of its handle.
#[verifier::reject_recursive_types(P)]
#[verifier::reject_recursive_types(R)]
pub struct Extension<P, R> {
    slot: Slot<LazyTransaction<P, R>>,
}

impl<P, R> Clone for Extension<P, R> {
    /// One more handle on the same binding.
    fn clone(&self) -> (clone: Self)
        ensures
            clone == *self,
    {
        Extension { slot: self.slot.share() }
    }
}

/// What [`Extension::grant`] answers, but for the handle itself.
pub open spec fn grant_step<P, R, E>(lease: Option<LazyTransactionState<P, R>>) -> Result<
    Step,
    Error<E>,
> {
    match lease {
        Some(state) => acquire_step(state),
        None => Err(Error::OverlappingExtractors),
    }
}

/// Resolving needs no transaction. A transaction that was never asked for
/// is resolved without anything to commit.
pub proof fn lemma_resolve_unacquired<P, R>(state: P)
    ensures
        resolve_step(LazyTransactionState::<P, R>::Unacquired { state }).1 is None,
        resolve_step(LazyTransactionState::<P, R>::Unacquired { state }).0 is Resolved,
{
}

/// A transaction is committed at most once. Whatever the state, resolving
/// it a second time hands out nothing, and asking for the transaction after
/// it was resolved is answered with [`Error::OverlappingExtractors`].
pub proof fn lemma_commit_at_most_once<P, R, E>(state: LazyTransactionState<P, R>)
    ensures
        resolve_step(resolve_step(state).0).1 is None,
        acquire_step::<P, R, E>(resolve_step(state).0) == Err::<Step, Error<E>>(
            Error::OverlappingExtractors,
        ),
{
}

/// An explicit commit is final. After it nothing is left to commit when the
/// request is resolved, and asking for the transaction again is answered
/// with [`Error::OverlappingExtractors`].
pub proof fn lemma_explicit_commit_is_final<P, R, E>(tx: R)
    ensures
        commit_step(LazyTransactionState::<P, R>::Acquired { tx }).1 == tx,
        resolve_step(commit_step(LazyTransactionState::<P, R>::Acquired { tx }).0).1 is None,
        acquire_step::<P, R, E>(commit_step(LazyTransactionState::<P, R>::Acquired { tx }).0)
            == Err::<Step, Error<E>>(Error::OverlappingExtractors),
{
}

/// Overlap is detected. While the transaction of a request is leased and not
/// given back, whoever asks for it gets [`Error::OverlappingExtractors`], as
/// often as they ask.
pub proof fn lemma_overlap_is_detected<P, R, E>(cell: Option<LazyTransaction<P, R>>, n: nat)
    requires
        n >= 1,
    ensures
        grant_step::<P, R, E>(
            match lease_step(after_leases(cell, n)).0 {
                Some(lazy) => Some(lazy@),
                None => None,
            },
        ) == Err::<Step, Error<E>>(Error::OverlappingExtractors),
{
    lemma_at_most_one_lease(cell, n);
}

impl<P, R> Extension<P, R> {
    /// Binds a transaction that is yet to be begun, from `state`, to a
    /// request.
    pub fn new(state: P) -> Self {
        Extension { slot: Slot::new(LazyTransaction::new(state)) }
    }

    /// Makes a handle out of what leasing the transaction gave.
    ///
    /// No lease means that somebody else holds the transaction, which is
    /// [`Error::OverlappingExtractors`]; so is a transaction that is already
    /// resolved, which then goes back to where it came from. Otherwise the
    /// lease becomes the handle: one to begin the transaction with, or the
    /// transaction itself.
    pub fn grant<E>(lease: Option<Lease<LazyTransaction<P, R>>>) -> (acquired: Result<
        Acquire<P, R>,
        Error<E>,
    >)
        requires
            lease matches Some(lease) ==> lease.is_live(),
        ensures
            match grant_step::<P, R, E>(
                match lease {
                    Some(lease) => Some(lease@@),
                    None => None,
                },
            ) {
                Ok(Step::Begin) => acquired matches Ok(Acquire::Begin(pending)) && pending.wf()
                    && pending.lease() == lease->0 && pending@ == lease->0@@->state,
                Ok(Step::Ready) => acquired matches Ok(Acquire::Ready(tx)) && tx.wf() && tx.lease()
                    == lease->0 && tx@ == lease->0@@->tx,
                Err(error) => acquired matches Err(e) && e == error,
            },
    {
        match lease {
            Some(lease) => match lease.as_ref().acquire() {
                Ok(Step::Begin) => Ok(Acquire::Begin(Pending::new(lease))),
                Ok(Step::Ready) => Ok(Acquire::Ready(Tx::new(lease))),
                Err(error) => Err(error),
            },
            None => Err(Error::OverlappingExtractors),
        }
    }

    /// Asks for the transaction of the request.
    ///
    /// The only way for this to fail is [`Error::OverlappingExtractors`]:
    /// see [`grant`](Self::grant), which decides.
    pub fn acquire<E>(&mut self) -> (acquired: Result<Acquire<P, R>, Error<E>>)
        ensures
            acquired matches Err(error) ==> error is OverlappingExtractors,
            acquired matches Ok(Acquire::Begin(pending)) ==> pending.wf(),
            acquired matches Ok(Acquire::Ready(tx)) ==> tx.wf(),
    {
        Self::grant(self.slot.lease())
    }

    /// Resolves what leasing the transaction gave: hands out the transaction
    /// to be committed, if there is a lease and it holds a transaction
    /// that was begun and not resolved.
    pub fn settle(lease: Option<Lease<LazyTransaction<P, R>>>) -> (tx: Option<R>)
        requires
            lease matches Some(lease) ==> lease.is_live(),
        ensures
            tx == (match lease {
                Some(lease) => resolve_step(lease@@).1,
                None => None,
            }),
    {
        match lease {
            Some(lease) => {
                let mut lease = lease;
                lease.as_mut().resolve()
            },
            None => None,
        }
    }

    /// Resolves the transaction of the request, at its end: hands out the
    /// transaction to be committed, if there is one to be had. See
    /// [`settle`](Self::settle), which decides.
    pub fn resolve(&mut self) -> Option<R> {
        Self::settle(self.slot.lease())
    }
}

} // verus!
