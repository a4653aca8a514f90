//! The handles on the transaction of a request.

use crate::error::Error;
use crate::extension::{Extension, LazyTransaction, LazyTransactionState};
use crate::slot::Lease;
use vstd::prelude::*;

verus! {

/// The transaction of a request, in the hands of one consumer.
///
/// While a `Tx` is around nobody else can get at the transaction. When it is
/// dropped the transaction goes back to where it came from, for the next
/// consumer or for the end of the request.
#[verifier::reject_recursive_types(P)]
#[verifier::reject_recursive_types(R)]
pub struct Tx<P, R> {
    tx: Lease<LazyTransaction<P, R>>,
}

/// The place of a transaction that has yet to be begun, in the hands of the
/// consumer who is to begin it.
///
/// Dropping it puts things back as they were: the next consumer is asked
/// again to begin.
#[verifier::reject_recursive_types(P)]
#[verifier::reject_recursive_types(R)]
pub struct Pending<P, R> {
    tx: Lease<LazyTransaction<P, R>>,
}

/// What a consumer gets when it asks for the transaction.
#[verifier::reject_recursive_types(P)]
#[verifier::reject_recursive_types(R)]
pub enum Acquire<P, R> {
    /// No transaction was begun yet: begin one, and report with
    /// [`Pending::begun`].
    Begin(Pending<P, R>),
    /// The transaction.
    Ready(Tx<P, R>),
}

impl<P, R> View for Tx<P, R> {
    type V = R;

    /// The transaction.
    closed spec fn view(&self) -> R {
        self.tx@@->tx
    }
}

impl<P, R> View for Pending<P, R> {
    type V = P;

    /// What the transaction is to be begun from.
    closed spec fn view(&self) -> P {
        self.tx@@->state
    }
}

impl<P, R> Pending<P, R> {
    /// The handle holds the place of a transaction that is yet to be begun.
    /// Every handle that this library gives out does.
    pub closed spec fn spec_wf(&self) -> bool {
        self.tx.is_live() && self.tx@@ is Unacquired
    }

    /// The handle holds the place of a transaction that is yet to be begun.
    /// Every handle that this library gives out does.
    #[verifier::when_used_as_spec(spec_wf)]
    pub fn wf(&self) -> (wf: bool)
        ensures
            wf == self.wf(),
    {
        self.tx.is_live() && self.tx.as_ref().is_unacquired()
    }

    /// The lease that this handle holds.
    pub closed spec fn lease(&self) -> Lease<LazyTransaction<P, R>> {
        self.tx
    }

    pub(crate) fn new(tx: Lease<LazyTransaction<P, R>>) -> (pending: Self)
        requires
            tx.is_live(),
            tx@@ is Unacquired,
        ensures
            pending.wf(),
            pending.lease() == tx,
            pending@ == tx@@->state,
    {
        Pending { tx }
    }

    /// What the transaction is to be begun from.
    pub fn state(&self) -> (state: &P)
        requires
            self.wf(),
        ensures
            *state == self@,
    {
        match self.tx.as_ref().state() {
            Some(state) => state,
            None => vstd::pervasive::unreached(),
        }
    }

    /// Takes the outcome of beginning a transaction. A transaction is kept,
    /// and comes back in the hands of the caller. A failure is passed on as
    /// a database error; nothing else changes by it, so that the next
    /// consumer is asked to begin again.
    pub fn begun<E>(self, outcome: Result<R, E>) -> (tx: Result<Tx<P, R>, Error<E>>)
        requires
            self.wf(),
        ensures
            match outcome {
                Ok(begun) => tx matches Ok(tx) && tx.wf() && tx@ == begun,
                Err(error) => tx matches Err(Error::Database { error: cause }) && cause == error,
            },
    {
        let Pending { tx } = self;
        let mut lease = tx;
        match lease.as_mut().begun(outcome) {
            Ok(()) => Ok(Tx::new(lease)),
            Err(error) => Err(error),
        }
    }
}

impl<P, R> Tx<P, R> {
    /// The handle holds a transaction. Every handle that this library gives
    /// out does.
    pub closed spec fn spec_wf(&self) -> bool {
        self.tx.is_live() && self.tx@@ is Acquired
    }

    /// The handle holds a transaction. Every handle that this library gives
    /// out does.
    #[verifier::when_used_as_spec(spec_wf)]
    pub fn wf(&self) -> (wf: bool)
        ensures
            wf == self.wf(),
    {
        self.tx.is_live() && self.tx.as_ref().is_acquired()
    }

    /// The lease that this handle holds.
    pub closed spec fn lease(&self) -> Lease<LazyTransaction<P, R>> {
        self.tx
    }

    pub(crate) fn new(tx: Lease<LazyTransaction<P, R>>) -> (handle: Self)
        requires
            tx.is_live(),
            tx@@ is Acquired,
        ensures
            handle.wf(),
            handle.lease() == tx,
            handle@ == tx@@->tx,
    {
        Tx { tx }
    }

    /// Asks the binding of a request, if there is one, for the transaction.
    ///
    /// Without a binding the answer is [`Error::MissingExtension`]. With one
    /// it is that of [`Extension::acquire`].
    pub fn extract<E>(extension: Option<&mut Extension<P, R>>) -> (acquired: Result<
        Acquire<P, R>,
        Error<E>,
    >)
        ensures
            extension is None ==> acquired matches Err(Error::MissingExtension),
            acquired matches Err(error) ==> (error is MissingExtension && extension is None) || (
            error is OverlappingExtractors && extension is Some),
            acquired matches Ok(Acquire::Begin(pending)) ==> pending.wf(),
            acquired matches Ok(Acquire::Ready(tx)) ==> tx.wf(),
    {
        match extension {
            Some(extension) => extension.acquire(),
            None => Err(Error::MissingExtension),
        }
    }

    /// The transaction.
    pub fn as_ref(&self) -> (tx: &R)
        requires
            self.wf(),
        ensures
            *tx == self@,
    {
        self.tx.as_ref().as_ref()
    }

    /// The transaction, to work on.
    pub fn as_mut(&mut self) -> (tx: &mut R)
        requires
            old(self).wf(),
        ensures
            *tx == old(self)@,
            final(self).wf(),
            final(self)@ == *final(tx),
    {
        self.tx.as_mut().as_mut()
    }

    /// Lets go of the transaction now, rather than when the handle is
    /// dropped, and tells how it went: see [`Lease::release`]. The result is
    /// `None` unless the transaction found its place taken.
    pub fn release(self) -> (rejected: Option<LazyTransaction<P, R>>)
        requires
            self.wf(),
        ensures
            rejected matches Some(lazy) ==> lazy@ is Acquired && lazy@->tx == self@,
    {
        let Tx { tx } = self;
        tx.release()
    }

    /// Explicitly commit the transaction: hands it out to be committed right
    /// now.
    ///
    /// The transaction is then resolved: asking for it again answers
    /// [`Error::OverlappingExtractors`], and nothing is left to commit at
    /// the end of the request.
    pub fn commit(self) -> (tx: R)
        requires
            self.wf(),
        ensures
            tx == self@,
    {
        let Tx { tx } = self;
        let mut lease = tx;
        lease.as_mut().commit()
    }
}

} // verus!
