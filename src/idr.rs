//! Keyframe recovery. The decoder reports whether it is waiting for a
//! decodable frame; when that stays true past a deadline a keyframe (IDR)
//! request is raised. Requests go through a coalescing notification: any
//! number of raises before the control loop looks produce one request.
use vstd::prelude::*;

verus! {

/// How long the decoder may wait for a keyframe before one is requested.
pub const IDR_REQUEST_DEADLINE_MS: u64 = 2000;

/// `t` plus the deadline, saturating at the largest time.
pub open spec fn deadline_after(t: u64) -> u64 {
    if t as int + IDR_REQUEST_DEADLINE_MS as int <= u64::MAX as int {
        (t + IDR_REQUEST_DEADLINE_MS) as u64
    } else {
        u64::MAX
    }
}

/// One observation of the decoder's waiting flag at time `now`: the new
/// deadline, and whether a request is raised now.
pub open spec fn idr_observe(deadline: Option<u64>, waiting: bool, now: u64) -> (Option<u64>, bool) {
    if !waiting {
        (None, false)
    } else {
        match deadline {
            None => (Some(deadline_after(now)), false),
            Some(d) => if now >= d {
                (None, true)
            } else {
                (Some(d), false)
            },
        }
    }
}

/// Watches the decoder's waiting flag.
pub struct IdrTimer {
    deadline: Option<u64>,
}

impl View for IdrTimer {
    type V = Option<u64>;

    closed spec fn view(&self) -> Option<u64> {
        self.deadline
    }
}

impl IdrTimer {
    /// A timer that has not seen the decoder wait.
    pub fn new() -> (r: IdrTimer)
        ensures
            r@ is None,
    {
        IdrTimer { deadline: None }
    }

    /// Records that the decoder is (or is not) waiting for a keyframe at
    /// `now_ms`. Returns true when the flag has stayed set since the deadline
    /// was armed and the deadline has passed; the deadline is then cleared, so
    /// the next request can come only a full deadline later. A cleared flag
    /// disarms the deadline.
    pub fn observe(&mut self, waiting: bool, now_ms: u64) -> (r: bool)
        ensures
            (final(self)@, r) == idr_observe(old(self)@, waiting, now_ms),
    {
        if !waiting {
            self.deadline = None;
            false
        } else {
            match self.deadline {
                None => {
                    self.deadline = Some(now_ms.saturating_add(IDR_REQUEST_DEADLINE_MS));
                    false
                },
                Some(d) => {
                    if now_ms >= d {
                        self.deadline = None;
                        true
                    } else {
                        false
                    }
                },
            }
        }
    }
}

/// Feeds observations `(waiting, time)` in order; the final deadline and the
/// times at which requests were raised.
pub open spec fn idr_run(deadline: Option<u64>, obs: Seq<(bool, u64)>) -> (Option<u64>, Seq<u64>)
    decreases obs.len(),
{
    if obs.len() == 0 {
        (deadline, Seq::empty())
    } else {
        let prev = idr_run(deadline, obs.drop_last());
        let step = idr_observe(prev.0, obs.last().0, obs.last().1);
        (step.0, if step.1 { prev.1.push(obs.last().1) } else { prev.1 })
    }
}

/// Observations that all see the flag set, at times that never go back.
pub open spec fn steadily_waiting(obs: Seq<(bool, u64)>) -> bool {
    &&& forall|i: int| 0 <= i < obs.len() ==> (#[trigger] obs[i]).0
    &&& forall|i: int, j: int| 0 <= i <= j < obs.len() ==> obs[i].1 <= obs[j].1
}

/// While the flag stays set from an idle timer whose first observation is at
/// `obs[0].1`, and all observations fall within twice the deadline of it:
/// no request comes before the deadline has passed, at most one comes in all,
/// and once an observation is made at or after the deadline exactly one has
/// come.
pub proof fn lemma_idr_single_request(obs: Seq<(bool, u64)>)
    requires
        obs.len() > 0,
        steadily_waiting(obs),
        obs[0].1 as int + 2 * IDR_REQUEST_DEADLINE_MS as int <= u64::MAX as int,
        forall|i: int| 0 <= i < obs.len() ==> (#[trigger] obs[i]).1 < obs[0].1 + 2 * IDR_REQUEST_DEADLINE_MS,
    ensures
        idr_run(None, obs).1.len() <= 1,
        forall|k: int| 0 <= k < idr_run(None, obs).1.len() ==> #[trigger] idr_run(None, obs).1[k] >= obs[0].1 + IDR_REQUEST_DEADLINE_MS,
        obs.last().1 >= obs[0].1 + IDR_REQUEST_DEADLINE_MS ==> idr_run(None, obs).1.len() == 1,
    decreases obs.len(),
{
    let t0 = obs[0].1;
    lemma_idr_window(obs, t0);
}

proof fn lemma_idr_window(obs: Seq<(bool, u64)>, t0: u64)
    requires
        obs.len() > 0,
        obs[0].1 == t0,
        steadily_waiting(obs),
        t0 as int + 2 * IDR_REQUEST_DEADLINE_MS as int <= u64::MAX as int,
        forall|i: int| 0 <= i < obs.len() ==> (#[trigger] obs[i]).1 < t0 + 2 * IDR_REQUEST_DEADLINE_MS,
    ensures
        idr_run(None, obs).1.len() <= 1,
        idr_run(None, obs).1.len() == 0 ==> idr_run(None, obs).0 == Some((t0 + IDR_REQUEST_DEADLINE_MS) as u64),
        idr_run(None, obs).1.len() == 1 ==> {
            &&& idr_run(None, obs).1[0] >= t0 + IDR_REQUEST_DEADLINE_MS
            &&& match idr_run(None, obs).0 {
                None => true,
                Some(d) => d >= t0 + 2 * IDR_REQUEST_DEADLINE_MS,
            }
        },
        obs.last().1 >= t0 + IDR_REQUEST_DEADLINE_MS ==> idr_run(None, obs).1.len() == 1,
    decreases obs.len(),
{
    if obs.len() == 1 {
        let e = Seq::<(bool, u64)>::empty();
        assert(obs.drop_last() =~= e);
        assert(idr_run(None, e) == (None::<u64>, Seq::<u64>::empty()));
    } else {
        let prev = obs.drop_last();
        assert(prev[0] == obs[0]);
        assert(steadily_waiting(prev)) by {
            assert forall|i: int| 0 <= i < prev.len() implies (#[trigger] prev[i]).0 by {
                assert(prev[i] == obs[i]);
            }
            assert forall|i: int, j: int| 0 <= i <= j < prev.len() implies prev[i].1 <= prev[j].1 by {
                assert(prev[i] == obs[i]);
                assert(prev[j] == obs[j]);
            }
        }
        assert forall|i: int| 0 <= i < prev.len() implies (#[trigger] prev[i]).1 < t0 + 2 * IDR_REQUEST_DEADLINE_MS by {
            assert(prev[i] == obs[i]);
        }
        lemma_idr_window(prev, t0);
        assert(obs.last() == obs[obs.len() - 1]);
        assert(prev.last() == obs[obs.len() - 2]);
        assert(obs.last().0);
        assert(obs.last().1 < t0 + 2 * IDR_REQUEST_DEADLINE_MS);
        assert(prev.last().1 <= obs.last().1);
        let r = idr_run(None, prev);
        if r.1.len() == 1 {
            assert(idr_run(None, obs).1 =~= r.1);
        }
    }
}

/// Coalescing wake-up signal for keyframe requests.
pub struct IdrNotifier {
    pending: bool,
}

impl View for IdrNotifier {
    type V = bool;

    closed spec fn view(&self) -> bool {
        self.pending
    }
}

impl IdrNotifier {
    /// A notifier with nothing pending.
    pub fn new() -> (r: IdrNotifier)
        ensures
            !r@,
    {
        IdrNotifier { pending: false }
    }

    /// Raises a request; raising again before it is taken changes nothing.
    pub fn notify(&mut self)
        ensures
            final(self)@ == notify_after(old(self)@),
    {
        self.pending = true;
    }

    /// Whether a request was raised since the last call; the notifier is then
    /// empty again. True means one `RequestIdr` is to be sent.
    pub fn take(&mut self) -> (r: bool)
        ensures
            (r, final(self)@) == take_after(old(self)@),
    {
        let r = self.pending;
        self.pending = false;
        r
    }

    /// The outcome of pushing a frame to the decoder: a refused push raises a
    /// request, an accepted one leaves the notifier as it was.
    pub fn on_decoder_push(&mut self, accepted: bool)
        ensures
            final(self)@ == (old(self)@ || !accepted),
    {
        if !accepted {
            self.pending = true;
        }
    }
}

/// Raising a request any number of times, at least once, and then taking
/// yields exactly one request: the first take reports it, a second take
/// finds nothing.
pub proof fn lemma_idr_coalesce(raised: nat)
    requires
        raised >= 1,
    ensures
        after_raises(false, raised),
        take_after(after_raises(false, raised)) == (true, false),
        take_after(take_after(after_raises(false, raised)).1) == (false, false),
    decreases raised,
{
    if raised > 1 {
        lemma_idr_coalesce((raised - 1) as nat);
    }
}

/// The pending flag after `n` raises, starting from `p`.
pub open spec fn after_raises(p: bool, n: nat) -> bool
    decreases n,
{
    if n == 0 { p } else { notify_after(after_raises(p, (n - 1) as nat)) }
}

/// The flag after one raise, as `IdrNotifier::notify` leaves it.
pub open spec fn notify_after(p: bool) -> bool {
    true
}

/// What a take returns and leaves, as `IdrNotifier::take` does.
pub open spec fn take_after(p: bool) -> (bool, bool) {
    (p, false)
}

} // verus!
