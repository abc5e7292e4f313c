//! The changes that arrive within one poll window, and the fetches that
//! fall due when the window has passed.

use vstd::prelude::*;
use vstd::string::StringExecFns;
use crate::listen::Listen;
use crate::resource::Resource;
use crate::text::str_eq;

verus! {

/// Milliseconds to wait for further notifications before the pending
/// changes are acted upon.
pub const POLL_WINDOW_MS: u64 = 300;

/// What identifies a change: the channel and the payload.
pub type ChangeKey = (Seq<char>, Seq<char>);

/// One change notification.
#[derive(Debug, PartialEq, Eq)]
pub struct Change {
    /// Channel name
    pub channel: String,
    /// Payload
    pub payload: String,
}

/// A fetch that is due when the window has passed.
#[derive(Debug, PartialEq, Eq)]
pub struct Due {
    /// Position of the resource in the catalog.
    pub resource: usize,
    /// Payload to fetch it with: empty for everything.
    pub payload: String,
}

/// The distinct changes that have arrived since the last fetches.
#[derive(Debug)]
pub struct PendingChanges {
    changes: Vec<Change>,
}

impl View for Change {
    type V = ChangeKey;

    open spec fn view(&self) -> ChangeKey {
        (self.channel@, self.payload@)
    }
}

/// Some pending change triggers the resource.
pub open spec fn wanted(res: Resource, pending: Set<ChangeKey>) -> bool {
    exists|p: ChangeKey| #[trigger] pending.contains(p) && res.rule().listening(p.0, p.1)
}

/// All pending changes that trigger the resource carry one payload.
pub open spec fn uniform(res: Resource, pending: Set<ChangeKey>) -> bool {
    forall|p: ChangeKey, q: ChangeKey|
        #[trigger] pending.contains(p) && #[trigger] pending.contains(q) && res.rule().listening(
            p.0,
            p.1,
        ) && res.rule().listening(q.0, q.1) ==> p.1 == q.1
}

/// `payload` is what the resource is fetched with: the payload of the
/// changes that trigger it where they all carry the same, and else the
/// empty payload, which asks for everything.
pub open spec fn payload_fits(res: Resource, pending: Set<ChangeKey>, payload: Seq<char>) -> bool {
    if uniform(res, pending) {
        forall|p: ChangeKey| #[trigger]
            pending.contains(p) && res.rule().listening(p.0, p.1) ==> p.1 == payload
    } else {
        payload.len() == 0
    }
}

/// `fetches` holds, in catalog order and once each, exactly the resources
/// that some pending change triggers, each with the payload that fits.
pub open spec fn is_plan(fetches: Seq<Due>, resources: Seq<Resource>, pending: Set<ChangeKey>) -> bool {
    is_plan_among(fetches, resources, resources.len() as int, pending)
}

/// As `is_plan`, for the first `n` resources.
#[verifier::opaque]
pub open spec fn is_plan_among(
    fetches: Seq<Due>,
    resources: Seq<Resource>,
    n: int,
    pending: Set<ChangeKey>,
) -> bool {
    &&& forall|i: int, j: int|
        0 <= i < j < fetches.len() ==> fetches[i].resource < fetches[j].resource
    &&& forall|i: int|
        0 <= i < fetches.len() ==> {
            let k = (#[trigger] fetches[i]).resource as int;
            &&& k < n
            &&& wanted(resources[k], pending)
            &&& payload_fits(resources[k], pending, fetches[i].payload@)
        }
    &&& forall|k: int|
        0 <= k < n && wanted(#[trigger] resources[k], pending) ==> exists|i: int|
            0 <= i < fetches.len() && (#[trigger] fetches[i]).resource == k
}

/// What the pending changes ask of one resource.
enum Demand {
    /// No change triggers it.
    Nothing,
    /// The changes that trigger it all carry the payload of the change at
    /// this position.
    One(usize),
    /// Changes with different payloads trigger it.
    Mixed,
}

/// The changes that a sequence of them holds.
pub open spec fn keys(changes: Seq<Change>) -> Set<ChangeKey> {
    Set::new(|p: ChangeKey| exists|i: int| 0 <= i < changes.len() && (#[trigger] changes[i])@ == p)
}

/// No change occurs twice.
pub open spec fn distinct(changes: Seq<Change>) -> bool {
    forall|i: int, j: int| 0 <= i < j < changes.len() ==> changes[i]@ != changes[j]@
}

proof fn lemma_keys_push(changes: Seq<Change>, c: Change)
    ensures
        keys(changes.push(c)) == keys(changes).insert(c@),
{
    let grown = changes.push(c);
    assert forall|p: ChangeKey| keys(grown).contains(p) <==> keys(changes).insert(c@).contains(
        p,
    ) by {
        if keys(grown).contains(p) {
            let i = choose|i: int| 0 <= i < grown.len() && (#[trigger] grown[i])@ == p;
            if i < changes.len() {
                assert(changes[i]@ == p);
            }
        }
        if keys(changes).contains(p) {
            let i = choose|i: int| 0 <= i < changes.len() && (#[trigger] changes[i])@ == p;
            assert(grown[i]@ == p);
        }
        if p == c@ {
            assert(grown[changes.len() as int]@ == p);
        }
    }
    assert(keys(grown) =~= keys(changes).insert(c@));
}

proof fn lemma_keys_finite(changes: Seq<Change>)
    ensures
        keys(changes).finite(),
        distinct(changes) ==> keys(changes).len() == changes.len(),
    decreases changes.len(),
{
    if changes.len() == 0 {
        assert(keys(changes) =~= Set::empty());
    } else {
        let front = changes.drop_last();
        let c = changes.last();
        lemma_keys_finite(front);
        lemma_keys_push(front, c);
        assert(front.push(c) =~= changes);
        if distinct(changes) {
            assert(distinct(front)) by {
                assert forall|i: int, j: int| 0 <= i < j < front.len() implies front[i]@
                    != front[j]@ by {
                    assert(changes[i]@ != changes[j]@);
                }
            }
            if keys(front).contains(c@) {
                let i = choose|i: int| 0 <= i < front.len() && (#[trigger] front[i])@ == c@;
                assert(changes[i]@ != changes[changes.len() - 1]@);
            }
        }
    }
}

proof fn lemma_plan_skip(
    before: Seq<Due>,
    resources: Seq<Resource>,
    k: usize,
    pending: Set<ChangeKey>,
)
    requires
        k < resources.len(),
        is_plan_among(before, resources, k as int, pending),
        !wanted(resources[k as int], pending),
    ensures
        is_plan_among(before, resources, k + 1, pending),
{
    reveal(is_plan_among);
}

proof fn lemma_plan_push(
    before: Seq<Due>,
    resources: Seq<Resource>,
    k: usize,
    pending: Set<ChangeKey>,
    payload: String,
)
    requires
        k < resources.len(),
        is_plan_among(before, resources, k as int, pending),
        wanted(resources[k as int], pending),
        payload_fits(resources[k as int], pending, payload@),
    ensures
        is_plan_among(before.push(Due { resource: k, payload }), resources, k + 1, pending),
{
    reveal(is_plan_among);
    let grown = before.push(Due { resource: k, payload });
    assert forall|q: int|
        0 <= q < k + 1 && wanted(#[trigger] resources[q], pending) implies exists|i: int|
        0 <= i < grown.len() && (#[trigger] grown[i]).resource == q by {
        if q < k {
            let i = choose|i: int| 0 <= i < before.len() && (#[trigger] before[i]).resource == q;
            assert(grown[i].resource == q);
        } else {
            assert(grown[before.len() as int].resource == q);
        }
    }
    assert forall|i: int, j: int| 0 <= i < j < grown.len() implies grown[i].resource
        < grown[j].resource by {
        if j == before.len() {
            assert(before[i].resource < k);
        }
    }
}

impl PendingChanges {
    /// The changes that are pending.
    pub closed spec fn view(&self) -> Set<ChangeKey> {
        keys(self.changes@)
    }

    /// The set holds no change twice.
    pub closed spec fn wf(&self) -> bool {
        distinct(self.changes@)
    }

    /// No pending changes.
    pub fn new() -> (r: Self)
        ensures
            r.wf(),
            r@ == Set::<ChangeKey>::empty(),
    {
        let r = PendingChanges { changes: Vec::new() };
        assert(r@ =~= Set::<ChangeKey>::empty());
        r
    }

    /// Number of distinct changes that are pending.
    pub fn len(&self) -> (n: usize)
        requires
            self.wf(),
        ensures
            self@.finite(),
            n == self@.len(),
    {
        proof {
            lemma_keys_finite(self.changes@);
        }
        self.changes.len()
    }

    /// Whether nothing is pending.
    pub fn is_empty(&self) -> (r: bool)
        requires
            self.wf(),
        ensures
            r == (self@ == Set::<ChangeKey>::empty()),
    {
        proof {
            lemma_keys_finite(self.changes@);
            if self.changes@.len() > 0 {
                assert(self@.contains(self.changes@[0]@));
            } else {
                assert(self@ =~= Set::<ChangeKey>::empty());
            }
        }
        self.changes.len() == 0
    }

    /// Whether the change `(channel, payload)` is pending.
    pub fn contains(&self, channel: &str, payload: &str) -> (r: bool)
        ensures
            r == self@.contains((channel@, payload@)),
    {
        let mut i: usize = 0;
        while i < self.changes.len()
            invariant
                i <= self.changes@.len(),
                forall|j: int| 0 <= j < i ==> (#[trigger] self.changes@[j])@ != (channel@, payload@),
            decreases self.changes@.len() - i,
        {
            let c = &self.changes[i];
            if str_eq(c.channel.as_str(), channel) && str_eq(c.payload.as_str(), payload) {
                assert(self.changes@[i as int]@ == (channel@, payload@));
                return true;
            }
            i += 1;
        }
        false
    }

    /// Take note of a change. A change that is pending already is not
    /// noted again; the result says whether it was new.
    pub fn insert(&mut self, channel: &str, payload: &str) -> (r: bool)
        requires
            old(self).wf(),
        ensures
            final(self).wf(),
            final(self)@ == old(self)@.insert((channel@, payload@)),
            r == !old(self)@.contains((channel@, payload@)),
    {
        if self.contains(channel, payload) {
            assert(self@.insert((channel@, payload@)) =~= self@);
            return false;
        }
        let change = Change {
            channel: String::from_str(channel),
            payload: String::from_str(payload),
        };
        proof {
            lemma_keys_push(self.changes@, change);
            assert forall|i: int| 0 <= i < self.changes@.len() implies (
            #[trigger] self.changes@[i])@ != change@ by {
                assert(self@.contains(self.changes@[i]@));
            }
        }
        self.changes.push(change);
        true
    }

    /// What the pending changes ask of a resource with the given rule.
    fn demand(&self, rule: &Listen) -> (r: Demand)
        ensures
            match r {
                Demand::Nothing => forall|i: int|
                    0 <= i < self.changes@.len() ==> !rule.listening(
                        (#[trigger] self.changes@[i]).channel@,
                        self.changes@[i].payload@,
                    ),
                Demand::One(f) => {
                    &&& f < self.changes@.len()
                    &&& rule.listening(
                        self.changes@[f as int].channel@,
                        self.changes@[f as int].payload@,
                    )
                    &&& forall|i: int|
                        0 <= i < self.changes@.len() && rule.listening(
                            (#[trigger] self.changes@[i]).channel@,
                            self.changes@[i].payload@,
                        ) ==> self.changes@[i].payload@ == self.changes@[f as int].payload@
                },
                Demand::Mixed => exists|i: int, j: int|
                    {
                        &&& 0 <= i < self.changes@.len()
                        &&& 0 <= j < self.changes@.len()
                        &&& rule.listening(
                            (#[trigger] self.changes@[i]).channel@,
                            self.changes@[i].payload@,
                        )
                        &&& rule.listening(
                            (#[trigger] self.changes@[j]).channel@,
                            self.changes@[j].payload@,
                        )
                        &&& self.changes@[i].payload@ != self.changes@[j].payload@
                    },
            },
    {
        let mut first: Option<usize> = None;
        let mut i: usize = 0;
        while i < self.changes.len()
            invariant
                i <= self.changes@.len(),
                match first {
                    None => forall|h: int|
                        0 <= h < i ==> !rule.listening(
                            (#[trigger] self.changes@[h]).channel@,
                            self.changes@[h].payload@,
                        ),
                    Some(f) => {
                        &&& f < i
                        &&& rule.listening(
                            self.changes@[f as int].channel@,
                            self.changes@[f as int].payload@,
                        )
                        &&& forall|h: int|
                            0 <= h < i && rule.listening(
                                (#[trigger] self.changes@[h]).channel@,
                                self.changes@[h].payload@,
                            ) ==> self.changes@[h].payload@ == self.changes@[f as int].payload@
                    },
                },
            decreases self.changes@.len() - i,
        {
            let c = &self.changes[i];
            if rule.is_listening(c.channel.as_str(), c.payload.as_str()) {
                match first {
                    None => {
                        first = Some(i);
                    },
                    Some(f) => {
                        if !str_eq(c.payload.as_str(), self.changes[f].payload.as_str()) {
                            assert(rule.listening(
                                self.changes@[i as int].channel@,
                                self.changes@[i as int].payload@,
                            ));
                            assert(rule.listening(
                                self.changes@[f as int].channel@,
                                self.changes@[f as int].payload@,
                            ));
                            return Demand::Mixed;
                        }
                    },
                }
            }
            i += 1;
        }
        match first {
            None => Demand::Nothing,
            Some(f) => Demand::One(f),
        }
    }

    /// The fetches that are due for the pending changes: every resource
    /// that some pending change triggers, once, in catalog order.
    pub fn plan(&self, resources: &[Resource]) -> (r: Vec<Due>)
        ensures
            is_plan(r@, resources@, self@),
    {
        let mut fetches: Vec<Due> = Vec::new();
        let mut k: usize = 0;
        proof {
            reveal(is_plan_among);
        }
        while k < resources.len()
            invariant
                k <= resources@.len(),
                is_plan_among(fetches@, resources@, k as int, self@),
            decreases resources@.len() - k,
        {
            let demand = self.demand(resources[k].listen());
            match demand {
                Demand::Nothing => {
                    proof {
                        self.lemma_demand_nothing(resources@[k as int]);
                        lemma_plan_skip(fetches@, resources@, k, self@);
                    }
                },
                Demand::One(f) => {
                    let payload = self.changes[f].payload.clone();
                    proof {
                        self.lemma_demand_one(resources@[k as int], f);
                        lemma_plan_push(fetches@, resources@, k, self@, payload);
                    }
                    fetches.push(Due { resource: k, payload });
                },
                Demand::Mixed => {
                    let payload = String::new();
                    proof {
                        self.lemma_demand_mixed(resources@[k as int]);
                        lemma_plan_push(fetches@, resources@, k, self@, payload);
                    }
                    fetches.push(Due { resource: k, payload });
                },
            }
            k += 1;
        }
        fetches
    }

    proof fn lemma_demand_nothing(&self, res: Resource)
        requires
            forall|i: int|
                0 <= i < self.changes@.len() ==> !res.rule().listening(
                    (#[trigger] self.changes@[i]).channel@,
                    self.changes@[i].payload@,
                ),
        ensures
            !wanted(res, self@),
    {
        if wanted(res, self@) {
            let p = choose|p: ChangeKey| #[trigger]
                self@.contains(p) && res.rule().listening(p.0, p.1);
            let i = choose|i: int| 0 <= i < self.changes@.len() && (#[trigger] self.changes@[i])@ == p;
            assert(res.rule().listening(self.changes@[i].channel@, self.changes@[i].payload@));
        }
    }

    proof fn lemma_demand_one(&self, res: Resource, f: usize)
        requires
            f < self.changes@.len(),
            res.rule().listening(self.changes@[f as int].channel@, self.changes@[f as int].payload@),
            forall|i: int|
                0 <= i < self.changes@.len() && res.rule().listening(
                    (#[trigger] self.changes@[i]).channel@,
                    self.changes@[i].payload@,
                ) ==> self.changes@[i].payload@ == self.changes@[f as int].payload@,
        ensures
            wanted(res, self@),
            payload_fits(res, self@, self.changes@[f as int].payload@),
    {
        let pf = self.changes@[f as int]@;
        assert(self@.contains(pf));
        assert forall|p: ChangeKey| #[trigger]
            self@.contains(p) && res.rule().listening(p.0, p.1) implies p.1 == pf.1 by {
            let i = choose|i: int| 0 <= i < self.changes@.len() && (#[trigger] self.changes@[i])@ == p;
            assert(self.changes@[i].payload@ == pf.1);
        }
    }

    proof fn lemma_demand_mixed(&self, res: Resource)
        requires
            exists|i: int, j: int|
                {
                    &&& 0 <= i < self.changes@.len()
                    &&& 0 <= j < self.changes@.len()
                    &&& res.rule().listening(
                        (#[trigger] self.changes@[i]).channel@,
                        self.changes@[i].payload@,
                    )
                    &&& res.rule().listening(
                        (#[trigger] self.changes@[j]).channel@,
                        self.changes@[j].payload@,
                    )
                    &&& self.changes@[i].payload@ != self.changes@[j].payload@
                },
        ensures
            wanted(res, self@),
            !uniform(res, self@),
            payload_fits(res, self@, Seq::<char>::empty()),
    {
        let (i, j) = choose|i: int, j: int|
            {
                &&& 0 <= i < self.changes@.len()
                &&& 0 <= j < self.changes@.len()
                &&& res.rule().listening(
                    (#[trigger] self.changes@[i]).channel@,
                    self.changes@[i].payload@,
                )
                &&& res.rule().listening(
                    (#[trigger] self.changes@[j]).channel@,
                    self.changes@[j].payload@,
                )
                &&& self.changes@[i].payload@ != self.changes@[j].payload@
            };
        let p = self.changes@[i]@;
        let q = self.changes@[j]@;
        assert(self@.contains(p));
        assert(self@.contains(q));
    }

    /// The window has passed: hand out the fetches that are due and forget
    /// the pending changes.
    pub fn drain(&mut self, resources: &[Resource]) -> (r: Vec<Due>)
        ensures
            is_plan(r@, resources@, old(self)@),
            final(self).wf(),
            final(self)@ == Set::<ChangeKey>::empty(),
    {
        let fetches = self.plan(resources);
        self.changes.clear();
        assert(self@ =~= Set::<ChangeKey>::empty());
        fetches
    }
}

/// A change that arrives again while it is pending leaves the pending
/// changes as they were: however often it arrives within one window, it
/// is pending once.
pub proof fn law_arrivals_coalesce(pending: Set<ChangeKey>, change: ChangeKey)
    ensures
        pending.insert(change).insert(change) == pending.insert(change),
{
    assert(pending.insert(change).insert(change) =~= pending.insert(change));
}

/// With one change pending, however often it arrived, each resource that
/// it triggers is fetched exactly once, with its payload, and no other
/// resource is fetched.
pub proof fn law_one_fetch_each(
    fetches: Seq<Due>,
    resources: Seq<Resource>,
    change: ChangeKey,
    k: int,
)
    requires
        is_plan(fetches, resources, Set::<ChangeKey>::empty().insert(change)),
        0 <= k < resources.len(),
    ensures
        resources[k].rule().listening(change.0, change.1) ==> exists|i: int|
            {
                &&& 0 <= i < fetches.len()
                &&& (#[trigger] fetches[i]).resource == k
                &&& fetches[i].payload@ == change.1
                &&& forall|j: int|
                    0 <= j < fetches.len() && (#[trigger] fetches[j]).resource == k ==> j == i
            },
        !resources[k].rule().listening(change.0, change.1) ==> forall|i: int|
            0 <= i < fetches.len() ==> (#[trigger] fetches[i]).resource != k,
{
    reveal(is_plan_among);
    let pending = Set::<ChangeKey>::empty().insert(change);
    assert(pending.contains(change));
    if resources[k].rule().listening(change.0, change.1) {
        assert(wanted(resources[k], pending));
        let i = choose|i: int| 0 <= i < fetches.len() && (#[trigger] fetches[i]).resource == k;
        assert(uniform(resources[k], pending));
        assert(fetches[i].payload@ == change.1);
        assert forall|j: int|
            0 <= j < fetches.len() && (#[trigger] fetches[j]).resource == k implies j == i by {
            if j < i {
                assert(fetches[j].resource < fetches[i].resource);
            } else if i < j {
                assert(fetches[i].resource < fetches[j].resource);
            }
        }
    } else {
        assert forall|i: int| 0 <= i < fetches.len() implies (#[trigger] fetches[i]).resource
            != k by {
            if fetches[i].resource == k {
                assert(wanted(resources[k], pending));
                let p = choose|p: ChangeKey| #[trigger]
                    pending.contains(p) && resources[k].rule().listening(p.0, p.1);
                assert(p == change);
            }
        }
    }
}

} // verus!
