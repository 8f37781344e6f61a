use vstd::prelude::*;

verus! {

/// Whether a layer should take on the contents scale of a window it is moved
/// to. The answer is always no: the surface manages the scale itself.
pub fn should_inherit_contents_scale_from_window() -> (r: bool)
    ensures
        !r,
{
    false
}

/// What a request for the layer delegate hook is told.
#[derive(Clone, Copy, Debug, PartialEq, Eq, Structural)]
pub struct DelegateGrant {
    /// Identity of the hook that every delegate refers to.
    pub hook: u64,
    /// Whether this request is the one that must register the hook.
    pub register: bool,
}

/// Process-wide record of the layer delegate hook: registered once, never
/// replaced. Callers that share it serialise their requests.
pub struct DelegateRegistry {
    hook: Option<u64>,
}

/// The registry's state and the grant after one request offering `candidate`.
pub open spec fn grant_step(state: Option<u64>, candidate: u64) -> (Option<u64>, DelegateGrant) {
    match state {
        Some(h) => (state, DelegateGrant { hook: h, register: false }),
        None => (Some(candidate), DelegateGrant { hook: candidate, register: true }),
    }
}

/// The grants for a sequence of requests, in order, from `state`.
pub open spec fn grants(state: Option<u64>, candidates: Seq<u64>) -> Seq<DelegateGrant>
    decreases candidates.len(),
{
    if candidates.len() == 0 {
        Seq::empty()
    } else {
        let (next, g) = grant_step(state, candidates[0]);
        seq![g] + grants(next, candidates.drop_first())
    }
}

/// How many grants in `gs` register the hook.
pub open spec fn registrations(gs: Seq<DelegateGrant>) -> nat
    decreases gs.len(),
{
    if gs.len() == 0 {
        0
    } else {
        (if gs[0].register {
            1nat
        } else {
            0nat
        }) + registrations(gs.drop_first())
    }
}

impl View for DelegateRegistry {
    type V = Option<u64>;

    closed spec fn view(&self) -> Option<u64> {
        self.hook
    }
}

impl DelegateRegistry {
    /// A registry in which nothing is registered yet.
    pub fn new() -> (r: DelegateRegistry)
        ensures
            r@ is None,
    {
        DelegateRegistry { hook: None }
    }

    /// Answers a request for the hook. The first request registers
    /// `candidate`; every later one is handed the registered hook.
    pub fn grant(&mut self, candidate: u64) -> (r: DelegateGrant)
        ensures
            (final(self)@, r) == grant_step(old(self)@, candidate),
            old(self)@ matches Some(h) ==> r == (DelegateGrant { hook: h, register: false })
                && final(self)@ == old(self)@,
            old(self)@ is None ==> r == (DelegateGrant { hook: candidate, register: true })
                && final(self)@ == Some(candidate),
    {
        match self.hook {
            Some(h) => DelegateGrant { hook: h, register: false },
            None => {
                self.hook = Some(candidate);
                DelegateGrant { hook: candidate, register: true }
            },
        }
    }
}

proof fn lemma_grants_after_registration(h: u64, candidates: Seq<u64>)
    ensures
        grants(Some(h), candidates).len() == candidates.len(),
        registrations(grants(Some(h), candidates)) == 0,
        forall|i: int| 0 <= i < candidates.len() ==> #[trigger] grants(Some(h), candidates)[i].hook == h,
    decreases candidates.len(),
{
    if candidates.len() > 0 {
        let rest = grants(Some(h), candidates.drop_first());
        lemma_grants_after_registration(h, candidates.drop_first());
        let gs = grants(Some(h), candidates);
        let g = DelegateGrant { hook: h, register: false };
        assert(gs == seq![g] + rest);
        assert((seq![g] + rest).drop_first() =~= rest);
        assert forall|i: int| 0 <= i < candidates.len() implies #[trigger] gs[i].hook == h by {
            if i > 0 {
                assert(gs[i] == rest[i - 1]);
            }
        }
    }
}

/// However many requests share one registry from the start, and in whatever
/// order they come, exactly one of them registers the hook, and every request
/// is handed that same hook.
pub proof fn lemma_registration_exactly_once(candidates: Seq<u64>)
    requires
        candidates.len() > 0,
    ensures
        grants(None, candidates).len() == candidates.len(),
        registrations(grants(None, candidates)) == 1,
        forall|i: int|
            0 <= i < candidates.len() ==> #[trigger] grants(None, candidates)[i].hook == candidates[0],
{
    let c0 = candidates[0];
    let rest = grants(Some(c0), candidates.drop_first());
    lemma_grants_after_registration(c0, candidates.drop_first());
    let gs = grants(None, candidates);
    let g = DelegateGrant { hook: c0, register: true };
    assert(gs == seq![g] + rest);
    assert((seq![g] + rest).drop_first() =~= rest);
    assert forall|i: int| 0 <= i < candidates.len() implies #[trigger] gs[i].hook == c0 by {
        if i > 0 {
            assert(gs[i] == rest[i - 1]);
        }
    }
}

} // verus!
