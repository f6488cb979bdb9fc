use vstd::prelude::*;

verus! {

/// What a non-blocking poll reports.
#[derive(Debug)]
pub enum Readiness<T> {
    /// The thread is still running.
    Pending,
    /// The thread has finished and was joined; this is what the join gave.
    Ready(T),
}

/// The owner of a thread's join primitive, which it hands out at most once.
#[derive(Debug)]
pub struct JoinSlot<H> {
    handle: Option<H>,
}

impl<H> View for JoinSlot<H> {
    type V = Option<H>;

    /// The primitive still held, or `None` once it was handed out.
    closed spec fn view(&self) -> Option<H> {
        self.handle
    }
}

/// What the slot reports when asked whether its thread has finished, given
/// the primitive's own answer: a slot that handed its primitive out has
/// nothing left running.
pub open spec fn reports_finished<H>(held: Option<H>, native_done: bool) -> bool {
    held is None || native_done
}

/// The only change a slot ever makes: it keeps what it holds, or lets it go.
/// A primitive, once handed out, never comes back.
pub open spec fn slot_step<H>(before: Option<H>, after: Option<H>) -> bool {
    after is None || after == before
}

/// Completion reports are monotonic and never early. Between two queries a
/// slot only makes its own steps, and the primitive's own answer, once it says
/// the work has returned, keeps saying so: then a slot that reported its
/// thread finished reports it again, and while the slot holds the primitive it
/// reports exactly what the primitive says.
pub proof fn lemma_finished_stays_finished<H>(
    before: Option<H>,
    after: Option<H>,
    done_before: bool,
    done_after: bool,
)
    requires
        slot_step(before, after),
        done_before ==> done_after,
    ensures
        reports_finished(before, done_before) ==> reports_finished(after, done_after),
        before is Some ==> reports_finished(before, done_before) == done_before,
{
}

impl<H> JoinSlot<H> {
    /// A slot that owns the join primitive of a freshly spawned thread.
    pub fn new(handle: H) -> (r: Self)
        ensures
            r@ == Some(handle),
    {
        JoinSlot { handle: Some(handle) }
    }

    /// Whether the primitive is still owned, i.e. neither joined nor leaked.
    pub fn is_held(&self) -> (r: bool)
        ensures
            r == self@ is Some,
    {
        self.handle.is_some()
    }

    /// Non-blocking completion query. `query` asks the primitive itself; once
    /// the primitive is gone the thread was joined (or given up) and the
    /// answer is `true`.
    pub fn is_finished<F: Fn(&H) -> bool>(&self, query: F) -> (r: bool)
        requires
            self@ matches Some(h) ==> query.requires((&h,)),
        ensures
            self@ is None ==> r,
            self@ matches Some(h) ==> query.ensures((&h,), r),
    {
        match &self.handle {
            Some(h) => query(h),
            None => true,
        }
    }

    /// Blocking join: hands the primitive to `join` exactly once and returns
    /// what it gives. Joining a slot twice is a caller's error.
    pub fn join<T, J: FnOnce(H) -> T>(&mut self, join: J) -> (r: T)
        requires
            old(self)@ is Some,
            join.requires((old(self)@->0,)),
        ensures
            final(self)@ is None,
            slot_step(old(self)@, final(self)@),
            join.ensures((old(self)@->0,), r),
    {
        let h = self.handle.take().unwrap();
        join(h)
    }

    /// Hands the primitive out without joining it. From here on nothing
    /// joins the thread on the slot's behalf.
    pub fn leak(&mut self) -> (r: H)
        requires
            old(self)@ is Some,
        ensures
            r == old(self)@->0,
            final(self)@ is None,
            slot_step(old(self)@, final(self)@),
    {
        self.handle.take().unwrap()
    }

    /// The join owed at destruction: if the primitive is still held it is
    /// joined, blocking until the thread has finished. Returns the failure
    /// the thread ended with, for the caller to raise again.
    pub fn release<T, P, J: FnOnce(H) -> Result<T, P>>(&mut self, join: J) -> (r: Option<P>)
        requires
            old(self)@ matches Some(h) ==> join.requires((h,)),
        ensures
            final(self)@ is None,
            slot_step(old(self)@, final(self)@),
            old(self)@ is None ==> r is None,
            old(self)@ matches Some(h) ==> match r {
                Some(p) => join.ensures((h,), Err(p)),
                None => exists|v: T| join.ensures((h,), Ok(v)),
            },
    {
        match self.handle.take() {
            Some(h) => match join(h) {
                Ok(_) => None,
                Err(p) => Some(p),
            },
            None => None,
        }
    }

    /// Non-blocking poll for a cooperative scheduler: joins the thread if
    /// `query` says it has finished, and otherwise leaves the slot as it is.
    pub fn poll<T, F: Fn(&H) -> bool, J: FnOnce(H) -> T>(&mut self, query: F, join: J) -> (r:
        Readiness<T>)
        requires
            old(self)@ is Some,
            query.requires((&old(self)@->0,)),
            join.requires((old(self)@->0,)),
        ensures
            slot_step(old(self)@, final(self)@),
            match r {
                Readiness::Pending => final(self)@ == old(self)@ && query.ensures(
                    (&old(self)@->0,),
                    false,
                ),
                Readiness::Ready(t) => final(self)@ is None && query.ensures(
                    (&old(self)@->0,),
                    true,
                ) && join.ensures((old(self)@->0,), t),
            },
    {
        if self.is_finished(query) {
            Readiness::Ready(self.join(join))
        } else {
            Readiness::Pending
        }
    }
}

} // verus!
