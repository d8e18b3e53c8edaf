use core::marker::PhantomData;
use vstd::prelude::*;

verus! {

/// Decides which handler serves a request.
pub trait Picker<S, Req> {
    /// Returns an index into the handlers that the combinator was built with.
    fn pick(&mut self, r: &Req, services: &[S]) -> usize;
}

/// What one handler answered when it was polled for readiness.
#[derive(Debug, PartialEq, Eq, Structural)]
pub enum Readiness<E> {
    Ready,
    Pending,
    Failed(E),
}

/// What the combinator's readiness check does next.
#[derive(Debug, PartialEq, Eq, Structural)]
pub enum ReadyStep<E> {
    /// Poll the handler at this index, then report its answer.
    Poll(usize),
    /// Every handler is ready: one request may be routed.
    Ready,
    /// A handler is not ready yet: resume the check when it wakes the task.
    Pending,
    /// A handler failed while being polled; the check ends with its error.
    Failed(E),
}

/// Why a routing decision could not be carried out. Both are contract
/// violations of the caller or of its picker.
#[derive(Clone, Copy, Debug, PartialEq, Eq, Structural)]
pub enum RouteError {
    /// The picker chose an index past the last handler.
    OutOfRange { index: usize, len: usize },
    /// The chosen handler has not reported ready since it was last invoked.
    NotReady { index: usize },
}

/// Every handler is flagged ready.
pub open spec fn all_ready(flags: Seq<bool>) -> bool {
    forall|j: int| 0 <= j < flags.len() ==> flags[j]
}

/// `i` is the first handler, in index order, that is not flagged ready.
pub open spec fn is_first_unready(flags: Seq<bool>, i: int) -> bool {
    &&& 0 <= i < flags.len()
    &&& !flags[i]
    &&& forall|j: int| 0 <= j < i ==> flags[j]
}

/// The step a readiness check takes from these flags: poll the first
/// handler that is not flagged ready, or report ready when there is none.
pub open spec fn next_step<E>(flags: Seq<bool>, step: ReadyStep<E>) -> bool {
    match step {
        ReadyStep::Poll(i) => is_first_unready(flags, i as int),
        ReadyStep::Ready => all_ready(flags),
        _ => false,
    }
}

/// Routing to `index` from `before`: the result and the flags after it.
pub open spec fn claim_outcome(
    before: Seq<bool>,
    index: usize,
    r: Result<usize, RouteError>,
    after: Seq<bool>,
) -> bool {
    if index >= before.len() {
        r == Err::<usize, RouteError>(RouteError::OutOfRange { index, len: before.len() as usize })
            && after == before
    } else if !before[index as int] {
        r == Err::<usize, RouteError>(RouteError::NotReady { index }) && after == before
    } else {
        r == Ok::<usize, RouteError>(index) && after == before.update(index as int, false)
    }
}

/// A readiness check reports ready exactly when every handler has reported
/// ready since it was last invoked.
pub proof fn lemma_ready_iff_all_flagged<E>(flags: Seq<bool>, step: ReadyStep<E>)
    requires
        next_step(flags, step),
    ensures
        (step == ReadyStep::<E>::Ready) <==> all_ready(flags),
{
    if step != ReadyStep::<E>::Ready {
        if let ReadyStep::Poll(i) = step {
            assert(!flags[i as int]);
        }
    }
}

/// With every handler ready, routing to handler `k` succeeds and clears its
/// flag alone; the next readiness check then polls `k` first, and once `k`
/// is ready again the check is ready without polling any other handler.
pub proof fn lemma_repoll_only_chosen(
    flags: Seq<bool>,
    k: usize,
    r: Result<usize, RouteError>,
    after: Seq<bool>,
)
    requires
        all_ready(flags),
        k < flags.len(),
        claim_outcome(flags, k, r, after),
    ensures
        r == Ok::<usize, RouteError>(k),
        forall|j: int| 0 <= j < flags.len() && j != k ==> after[j],
        next_step(after, ReadyStep::<()>::Poll(k)),
        next_step(after.update(k as int, true), ReadyStep::<()>::Ready),
{
    assert(after.update(k as int, true) =~= flags);
}

/// Routes each request to one of a fixed list of handlers, chosen by a
/// picker, and reports ready only when every handler is ready.
#[derive(Debug)]
pub struct Steer<S, F, Req> {
    router: F,
    cls: Vec<S>,
    ready: Vec<bool>,
    _phantom: PhantomData<Req>,
}

impl<S, F, Req> Steer<S, F, Req> {
    /// The handlers, in the order the picker indexes them.
    pub closed spec fn handlers(&self) -> Seq<S> {
        self.cls@
    }

    /// One flag per handler: it has reported ready since it was last invoked.
    pub closed spec fn flags(&self) -> Seq<bool> {
        self.ready@
    }

    /// The flags run parallel to the handlers.
    pub closed spec fn wf(&self) -> bool {
        self.cls@.len() == self.ready@.len()
    }

    /// Builds a combinator over `cls`, with no handler flagged ready.
    ///
    /// An empty list is accepted: its readiness check is ready at once and
    /// every routing decision is out of range.
    pub fn new(cls: Vec<S>, router: F) -> (r: Self)
        ensures
            r.wf(),
            r.handlers() == cls@,
            r.flags() == Seq::new(cls@.len(), |i: int| false),
    {
        let mut ready: Vec<bool> = Vec::new();
        let n = cls.len();
        while ready.len() < n
            invariant
                n == cls@.len(),
                ready@.len() <= n,
                forall|j: int| 0 <= j < ready@.len() ==> !ready@[j],
            decreases n - ready@.len(),
        {
            ready.push(false);
        }
        proof {
            assert(ready@ =~= Seq::new(cls@.len(), |i: int| false));
        }
        Steer { router, cls, ready, _phantom: PhantomData }
    }

    /// The number of handlers.
    pub fn len(&self) -> (r: usize)
        requires
            self.wf(),
        ensures
            r == self.handlers().len(),
    {
        self.cls.len()
    }

    /// Whether handler `i` has reported ready since it was last invoked.
    pub fn is_ready(&self, i: usize) -> (r: bool)
        requires
            self.wf(),
            i < self.handlers().len(),
        ensures
            r == self.flags()[i as int],
    {
        self.ready[i]
    }

    /// The handler at index `i`, to poll or to invoke it.
    pub fn service_mut(&mut self, i: usize) -> (r: &mut S)
        requires
            old(self).wf(),
            i < old(self).handlers().len(),
        ensures
            *r == old(self).handlers()[i as int],
            final(self).handlers() == old(self).handlers().update(i as int, *final(r)),
            final(self).flags() == old(self).flags(),
            final(self).wf(),
    {
        &mut self.cls[i]
    }

    /// Starts, or resumes, the readiness check: names the first handler
    /// not flagged ready, which is to be polled, or reports ready.
    pub fn poll_ready_begin<E>(&self) -> (r: ReadyStep<E>)
        requires
            self.wf(),
        ensures
            next_step(self.flags(), r),
    {
        let mut i: usize = 0;
        while i < self.ready.len()
            invariant
                i <= self.ready@.len(),
                forall|j: int| 0 <= j < i ==> self.ready@[j],
            decreases self.ready@.len() - i,
        {
            if !self.ready[i] {
                return ReadyStep::Poll(i);
            }
            i = i + 1;
        }
        ReadyStep::Ready
    }

    /// Takes what handler `i` answered when polled. A ready handler is
    /// flagged and the check moves on; a pending one suspends the check; a
    /// failure ends it with that error, and no later handler is polled.
    pub fn poll_ready_record<E>(&mut self, i: usize, answer: Readiness<E>) -> (r: ReadyStep<E>)
        requires
            old(self).wf(),
            i < old(self).handlers().len(),
            !old(self).flags()[i as int],
        ensures
            final(self).wf(),
            final(self).handlers() == old(self).handlers(),
            match answer {
                Readiness::Ready => {
                    &&& final(self).flags() == old(self).flags().update(i as int, true)
                    &&& next_step(final(self).flags(), r)
                },
                Readiness::Pending => {
                    &&& final(self).flags() == old(self).flags()
                    &&& r == ReadyStep::<E>::Pending
                },
                Readiness::Failed(e) => {
                    &&& final(self).flags() == old(self).flags()
                    &&& r == ReadyStep::<E>::Failed(e)
                },
            },
    {
        match answer {
            Readiness::Ready => {
                self.ready.set(i, true);
                self.poll_ready_begin()
            },
            Readiness::Pending => ReadyStep::Pending,
            Readiness::Failed(e) => ReadyStep::Failed(e),
        }
    }

    /// Carries out the decision to route one request to handler `index`:
    /// the handler must be flagged ready, and its flag is cleared.
    pub fn claim(&mut self, index: usize) -> (r: Result<usize, RouteError>)
        requires
            old(self).wf(),
        ensures
            final(self).wf(),
            final(self).handlers() == old(self).handlers(),
            claim_outcome(old(self).flags(), index, r, final(self).flags()),
    {
        if index >= self.ready.len() {
            Err(RouteError::OutOfRange { index, len: self.ready.len() })
        } else if !self.ready[index] {
            Err(RouteError::NotReady { index })
        } else {
            self.ready.set(index, false);
            Ok(index)
        }
    }
}

impl<S, F: Picker<S, Req>, Req> Steer<S, F, Req> {
    /// Asks the picker where `req` goes and claims that handler. On `Ok(i)`
    /// the caller invokes handler `i` with the request.
    pub fn route(&mut self, req: &Req) -> (r: Result<usize, RouteError>)
        requires
            old(self).wf(),
        ensures
            final(self).wf(),
            final(self).handlers() == old(self).handlers(),
            exists|index: usize| claim_outcome(old(self).flags(), index, r, final(self).flags()),
    {
        let index = self.router.pick(req, self.cls.as_slice());
        let r = self.claim(index);
        proof {
            assert(claim_outcome(old(self).flags(), index, r, self.flags()));
        }
        r
    }
}

} // verus!
