use vstd::prelude::*;

use crate::error::{CortexError, ErrorKind, Reason};

verus! {

/// How many candidate keys are tried when no key was given.
pub const MAX_ATTEMPTS: u32 = 20;

/// What the operating system answered to an exclusive creation request.
#[derive(Debug, Clone, Copy, PartialEq, Eq, Structural)]
pub enum CreateOutcome {
    /// The segment was created and has this identifier.
    Created(i32),
    /// The key already names a segment.
    Collision,
    /// Creation failed for another reason.
    Failed,
}

/// What to do after an exclusive creation request was answered.
#[derive(Debug, Clone, Copy, PartialEq, Eq, Structural)]
pub enum Step {
    /// A new segment exists under `key`: map it, initialise it, create its lock.
    Initialise { key: i32, id: i32 },
    /// Attach to the segment and lock that exist under `key` and take ownership.
    Takeover { key: i32 },
    /// Draw a fresh candidate key and ask again.
    Retry,
    /// Give up with this error; nothing was created.
    Fail(CortexError),
}

/// The state of the allocate-or-attach protocol while a key is being settled.
#[derive(Debug, Clone, Copy, PartialEq, Eq, Structural)]
pub struct Negotiation {
    /// The key the caller gave, if any; otherwise keys are drawn at random.
    pub explicit_key: Option<i32>,
    /// Whether an existing segment under the explicit key may be taken over.
    pub force: bool,
    /// How many candidate keys have collided so far.
    pub attempts: u32,
}

pub open spec fn collision_error() -> CortexError {
    CortexError { kind: ErrorKind::Clean, reason: Reason::KeyCollision }
}

pub open spec fn create_error() -> CortexError {
    CortexError { kind: ErrorKind::Clean, reason: Reason::CreateFailed }
}

impl Negotiation {
    /// A negotiation that may still take a step: a random-key negotiation has
    /// candidates left, and an explicit key is only ever tried once.
    pub open spec fn wf(self) -> bool {
        &&& self.attempts < MAX_ATTEMPTS
        &&& (self.explicit_key is Some ==> self.attempts == 0)
    }

    /// The state after trying `key` and hearing `outcome`, with the step to take.
    pub open spec fn next(self, key: i32, outcome: CreateOutcome) -> (Negotiation, Step) {
        match outcome {
            CreateOutcome::Created(id) => (self, Step::Initialise { key, id }),
            CreateOutcome::Failed => (self, Step::Fail(create_error())),
            CreateOutcome::Collision => match self.explicit_key {
                Some(k) => if self.force {
                    (self, Step::Takeover { key: k })
                } else {
                    (self, Step::Fail(collision_error()))
                },
                None => if self.attempts + 1 < MAX_ATTEMPTS {
                    (Negotiation { attempts: (self.attempts + 1) as u32, ..self }, Step::Retry)
                } else {
                    (self, Step::Fail(collision_error()))
                },
            },
        }
    }

    pub fn start(explicit_key: Option<i32>, force: bool) -> (r: Negotiation)
        ensures
            r == (Negotiation { explicit_key, force, attempts: 0 }),
            r.wf(),
    {
        Negotiation { explicit_key, force, attempts: 0 }
    }

    /// Records the answer to the creation request for `key` and says what comes next.
    pub fn step(&mut self, key: i32, outcome: CreateOutcome) -> (r: Step)
        ensures
            (*final(self), r) == old(self).next(key, outcome),
            old(self).wf() && r is Retry ==> final(self).wf(),
    {
        match outcome {
            CreateOutcome::Created(id) => Step::Initialise { key, id },
            CreateOutcome::Failed => Step::Fail(CortexError::new_clean(Reason::CreateFailed)),
            CreateOutcome::Collision => match self.explicit_key {
                Some(k) => if self.force {
                    Step::Takeover { key: k }
                } else {
                    Step::Fail(CortexError::new_clean(Reason::KeyCollision))
                },
                None => if self.attempts < MAX_ATTEMPTS - 1 {
                    self.attempts = self.attempts + 1;
                    Step::Retry
                } else {
                    Step::Fail(CortexError::new_clean(Reason::KeyCollision))
                },
            },
        }
    }
}

/// What to do once mapping a freshly created segment was attempted.
#[derive(Debug, Clone, Copy, PartialEq, Eq, Structural)]
pub enum MapStep {
    /// The mapping exists: write the initial value.
    Initialise,
    /// Mark the new segment for removal, then fail with this error.
    Abandon(CortexError),
}

/// Decides how creation goes on after mapping the new segment: a failure to
/// map is dirty, because the segment already exists.
pub fn after_map(mapped: bool) -> (r: MapStep)
    ensures
        mapped ==> r == MapStep::Initialise,
        !mapped ==> r == MapStep::Abandon(
            CortexError { kind: ErrorKind::Dirty, reason: Reason::MapFailed },
        ),
{
    if mapped {
        MapStep::Initialise
    } else {
        MapStep::Abandon(CortexError::new_dirty(Reason::MapFailed))
    }
}

/// The step reached by trying the candidates in order, as long as each asks
/// for a retry; `Retry` if the candidates run out first.
pub open spec fn run(n: Negotiation, candidates: Seq<(i32, CreateOutcome)>) -> Step
    decreases candidates.len(),
{
    if candidates.len() == 0 {
        Step::Retry
    } else {
        let (n2, s) = n.next(candidates[0].0, candidates[0].1);
        if s is Retry {
            run(n2, candidates.drop_first())
        } else {
            s
        }
    }
}

/// The state reached by trying the candidates in order, as long as each asks
/// for a retry.
pub open spec fn state_after(n: Negotiation, candidates: Seq<(i32, CreateOutcome)>) -> Negotiation
    decreases candidates.len(),
{
    if candidates.len() == 0 {
        n
    } else {
        let (n2, s) = n.next(candidates[0].0, candidates[0].1);
        if s is Retry {
            state_after(n2, candidates.drop_first())
        } else {
            n2
        }
    }
}

proof fn lemma_run_push(n: Negotiation, t: Seq<(i32, CreateOutcome)>, x: (i32, CreateOutcome))
    requires
        run(n, t) is Retry,
    ensures
        run(n, t.push(x)) == state_after(n, t).next(x.0, x.1).1,
        state_after(n, t.push(x)) == state_after(n, t).next(x.0, x.1).0,
    decreases t.len(),
{
    let tx = t.push(x);
    if t.len() == 0 {
        let (n2, s) = n.next(x.0, x.1);
        assert(tx[0] == x);
        assert(tx.drop_first() =~= Seq::<(i32, CreateOutcome)>::empty());
        assert(state_after(n2, tx.drop_first()) == n2);
        assert(run(n2, tx.drop_first()) is Retry);
        assert(state_after(n, t) == n);
    } else {
        let (n2, s) = n.next(t[0].0, t[0].1);
        assert(tx[0] == t[0]);
        assert(tx.drop_first() =~= t.drop_first().push(x));
        lemma_run_push(n2, t.drop_first(), x);
    }
}

/// Settles the key of a new segment: tries the explicit key, or keys from
/// `draw`, asking `create` for each, until a step other than a retry comes.
/// The ghost result is every key tried with the answer it got; the step is
/// what `run` gives on exactly those answers.
pub fn negotiate_key<D: Fn() -> i32, C: Fn(i32) -> CreateOutcome>(
    init_key: Option<i32>,
    force: bool,
    draw: D,
    create: C,
) -> (r: (Step, Ghost<Seq<(i32, CreateOutcome)>>))
    requires
        draw.requires(()),
        forall|k: i32| create.requires((k,)),
    ensures
        r.0 == run(Negotiation { explicit_key: init_key, force, attempts: 0 }, r.1@),
        !(r.0 is Retry),
        1 <= r.1@.len() <= MAX_ATTEMPTS,
        forall|i: int| 0 <= i < r.1@.len() ==> create.ensures((r.1@[i].0,), #[trigger] r.1@[i].1),
        init_key matches Some(k) ==> r.1@.len() == 1 && r.1@[0].0 == k,
{
    let ghost n0 = Negotiation { explicit_key: init_key, force, attempts: 0 };
    let mut n = Negotiation::start(init_key, force);
    let ghost mut trace: Seq<(i32, CreateOutcome)> = Seq::empty();
    loop
        invariant
            draw.requires(()),
            forall|k: i32| create.requires((k,)),
            n0 == (Negotiation { explicit_key: init_key, force, attempts: 0 }),
            n.wf(),
            n.explicit_key == init_key,
            n.force == force,
            run(n0, trace) is Retry,
            state_after(n0, trace) == n,
            trace.len() == n.attempts,
            forall|i: int| 0 <= i < trace.len() ==> create.ensures((trace[i].0,), #[trigger] trace[i].1),
        decreases MAX_ATTEMPTS - n.attempts,
    {
        let key = match init_key {
            Some(k) => k,
            None => draw(),
        };
        let outcome = create(key);
        proof {
            lemma_run_push(n0, trace, (key, outcome));
        }
        let s = n.step(key, outcome);
        proof {
            trace = trace.push((key, outcome));
        }
        if !matches!(s, Step::Retry) {
            return (s, Ghost(trace));
        }
    }
}

} // verus!
