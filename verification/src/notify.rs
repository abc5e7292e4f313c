//! From change notifications to fetches: the channels to subscribe to, the
//! first full refresh, and the resources that one notification triggers.

use vstd::prelude::*;
use vstd::string::StringExecFns;
use crate::catalog::{all, catalog};
use crate::listen::{contains_name, names_contain};
use crate::resource::{FetchJob, Resource};

verus! {

/// One fetch that is due: the position of the resource in the catalog, and
/// what fetching it involves.
#[derive(Debug, PartialEq, Eq)]
pub struct Fetch<'a> {
    /// Position of the resource in the catalog.
    pub resource: usize,
    /// What has to be done.
    pub job: FetchJob<'a>,
}

/// What one notification leads to.
#[derive(Debug, PartialEq, Eq)]
pub struct Notified<'a> {
    /// The fetches that it triggers, in catalog order.
    pub fetches: Vec<Fetch<'a>>,
    /// Some resource knows the notification: it triggers a fetch, or it is
    /// one that a resource leaves out on purpose. Where none does, the
    /// notification is unknown and is dropped with a warning.
    pub found: bool,
}

/// Some rule among the first `k` resources, or among the first `c` channels
/// of resource `k`, names the channel `name`.
pub open spec fn referenced_before(
    resources: Seq<Resource>,
    k: int,
    c: int,
    name: Seq<char>,
) -> bool {
    exists|i: int, j: int|
        0 <= i < resources.len() && 0 <= j < resources[i].rule().channels().len() && (i < k || (i
            == k && j < c)) && (#[trigger] resources[i].rule().channels()[j])@ == name
}

/// Some rule of `resources` names the channel `name`.
pub open spec fn referenced(resources: Seq<Resource>, name: Seq<char>) -> bool {
    referenced_before(resources, resources.len() as int, 0, name)
}

/// No two of `names` hold the same text.
pub open spec fn distinct_names(names: Seq<&'static str>) -> bool {
    forall|i: int, j: int| 0 <= i < j < names.len() ==> names[i]@ != names[j]@
}

/// Some resource's rule answers the notification `(chan, payload)` under
/// its second predicate: the payload is one that an excluding rule leaves
/// out on purpose, or the rule is of another form and triggers.
pub open spec fn payload_known(resources: Seq<Resource>, chan: Seq<char>, payload: Seq<char>) -> bool {
    exists|k: int|
        0 <= k < resources.len() && (#[trigger] resources[k]).rule().listening_payload(
            chan,
            payload,
        )
}

/// The rule triggers on `(chan, payload)` or deliberately leaves it out.
pub open spec fn answers(res: Resource, chan: Seq<char>, payload: Seq<char>) -> bool {
    res.rule().listening(chan, payload) || res.rule().listening_payload(chan, payload)
}

/// Some resource triggers on, or deliberately leaves out, `(chan, payload)`.
pub open spec fn known(resources: Seq<Resource>, chan: Seq<char>, payload: Seq<char>) -> bool {
    known_among(resources, resources.len() as int, chan, payload)
}

/// `fetches` holds, in catalog order and once each, exactly those of the
/// first `n` resources whose rule triggers on `(chan, payload)`, each with
/// its job for `payload`.
#[verifier::opaque]
pub open spec fn triggered_among<'a>(
    fetches: Seq<Fetch<'a>>,
    resources: Seq<Resource>,
    n: int,
    chan: Seq<char>,
    payload: &'a str,
) -> bool {
    &&& forall|i: int, j: int|
        0 <= i < j < fetches.len() ==> fetches[i].resource < fetches[j].resource
    &&& forall|i: int|
        0 <= i < fetches.len() ==> {
            let k = (#[trigger] fetches[i]).resource as int;
            &&& k < n
            &&& resources[k].rule().listening(chan, payload@)
            &&& fetches[i].job == resources[k].job(payload)
        }
    &&& forall|k: int|
        0 <= k < n && (#[trigger] resources[k]).rule().listening(chan, payload@) ==> exists|
            i: int,
        | 0 <= i < fetches.len() && (#[trigger] fetches[i]).resource == k
}

/// `fetches` holds, in catalog order and once each, exactly the resources
/// whose rule triggers on `(chan, payload)`, each with its job for `payload`.
pub open spec fn triggered_by<'a>(
    fetches: Seq<Fetch<'a>>,
    resources: Seq<Resource>,
    chan: Seq<char>,
    payload: &'a str,
) -> bool {
    triggered_among(fetches, resources, resources.len() as int, chan, payload)
}

/// Some of the first `n` resources triggers on, or deliberately leaves
/// out, `(chan, payload)`.
#[verifier::opaque]
pub open spec fn known_among(
    resources: Seq<Resource>,
    n: int,
    chan: Seq<char>,
    payload: Seq<char>,
) -> bool {
    exists|k: int| 0 <= k < n && answers(#[trigger] resources[k], chan, payload)
}

/// `channels` names each channel that a rule of `resources` names, once.
pub open spec fn is_channel_set(channels: Seq<&'static str>, resources: Seq<Resource>) -> bool {
    &&& distinct_names(channels)
    &&& forall|name: Seq<char>| #[trigger]
        names_contain(channels, name) <==> referenced(resources, name)
}

proof fn lemma_names_push(names: Seq<&'static str>, n: &'static str, name: Seq<char>)
    ensures
        names_contain(names.push(n), name) <==> names_contain(names, name) || n@ == name,
{
    let grown = names.push(n);
    if names_contain(names, name) {
        let i = choose|i: int| 0 <= i < names.len() && (#[trigger] names[i])@ == name;
        assert(grown[i]@ == name);
    }
    if n@ == name {
        assert(grown[names.len() as int]@ == name);
    }
    if names_contain(grown, name) {
        let i = choose|i: int| 0 <= i < grown.len() && (#[trigger] grown[i])@ == name;
        if i < names.len() {
            assert(names[i]@ == name);
        }
    }
}

/// The channels that the rules of `resources` name, each once.
pub fn channel_set(resources: &[Resource]) -> (r: Vec<&'static str>)
    ensures
        is_channel_set(r@, resources@),
{
    let mut channels: Vec<&'static str> = Vec::new();
    let mut k: usize = 0;
    while k < resources.len()
        invariant
            k <= resources.len(),
            distinct_names(channels@),
            forall|name: Seq<char>| #[trigger]
                names_contain(channels@, name) <==> referenced_before(
                    resources@,
                    k as int,
                    0,
                    name,
                ),
        decreases resources.len() - k,
    {
        let names = resources[k].listen().channel_names();
        let mut c: usize = 0;
        while c < names.len()
            invariant
                k < resources.len(),
                c <= names.len(),
                names@ == resources@[k as int].rule().channels(),
                distinct_names(channels@),
                forall|name: Seq<char>| #[trigger]
                    names_contain(channels@, name) <==> referenced_before(
                        resources@,
                        k as int,
                        c as int,
                        name,
                    ),
            decreases names.len() - c,
        {
            let n = names[c];
            let ghost before = channels@;
            let have = contains_name(channels.as_slice(), n);
            if !have {
                channels.push(n);
            }
            proof {
                assert forall|name: Seq<char>| #[trigger]
                    names_contain(channels@, name) <==> referenced_before(
                        resources@,
                        k as int,
                        c as int + 1,
                        name,
                    ) by {
                    lemma_names_push(before, n, name);
                    if referenced_before(resources@, k as int, c as int + 1, name) {
                        let (i, j) = choose|i: int, j: int|
                            0 <= i < resources@.len() && 0 <= j
                                < resources@[i].rule().channels().len() && (i < k || (i == k && j
                                < c + 1)) && (#[trigger] resources@[i].rule().channels()[j])@
                                == name;
                        if i == k && j == c {
                        } else {
                            assert(referenced_before(resources@, k as int, c as int, name));
                        }
                    }
                    if referenced_before(resources@, k as int, c as int, name) {
                        let (i, j) = choose|i: int, j: int|
                            0 <= i < resources@.len() && 0 <= j
                                < resources@[i].rule().channels().len() && (i < k || (i == k && j
                                < c)) && (#[trigger] resources@[i].rule().channels()[j])@ == name;
                        assert(resources@[i].rule().channels()[j]@ == name);
                    }
                    if n@ == name {
                        assert(resources@[k as int].rule().channels()[c as int]@ == name);
                    }
                }
                if !have {
                    assert forall|i: int, j: int| 0 <= i < j < channels@.len() implies channels@[i]@
                        != channels@[j]@ by {
                        if j == before.len() {
                            assert(before[i]@ != n@);
                        }
                    }
                }
            }
            c += 1;
        }
        proof {
            assert forall|name: Seq<char>| #[trigger]
                names_contain(channels@, name) <==> referenced_before(
                    resources@,
                    k as int + 1,
                    0,
                    name,
                ) by {
                if referenced_before(resources@, k as int + 1, 0, name) {
                    let (i, j) = choose|i: int, j: int|
                        0 <= i < resources@.len() && 0 <= j < resources@[i].rule().channels().len()
                            && (i < k + 1 || (i == k + 1 && j < 0)) && (
                        #[trigger] resources@[i].rule().channels()[j])@ == name;
                    assert(referenced_before(resources@, k as int, names@.len() as int, name));
                }
                if referenced_before(resources@, k as int, names@.len() as int, name) {
                    let (i, j) = choose|i: int, j: int|
                        0 <= i < resources@.len() && 0 <= j < resources@[i].rule().channels().len()
                            && (i < k || (i == k && j < names@.len())) && (
                        #[trigger] resources@[i].rule().channels()[j])@ == name;
                    assert(resources@[i].rule().channels()[j]@ == name);
                }
            }
        }
        k += 1;
    }
    channels
}

proof fn lemma_fetch_step<'a>(
    before: Seq<Fetch<'a>>,
    resources: Seq<Resource>,
    k: usize,
    chan: Seq<char>,
    payload: &'a str,
)
    requires
        k < resources.len(),
        triggered_among(before, resources, k as int, chan, payload),
    ensures
        resources[k as int].rule().listening(chan, payload@) ==> triggered_among(
            before.push(Fetch { resource: k, job: resources[k as int].job(payload) }),
            resources,
            k + 1,
            chan,
            payload,
        ),
        !resources[k as int].rule().listening(chan, payload@) ==> triggered_among(
            before,
            resources,
            k + 1,
            chan,
            payload,
        ),
{
    reveal(triggered_among);
    if resources[k as int].rule().listening(chan, payload@) {
        let grown = before.push(Fetch { resource: k, job: resources[k as int].job(payload) });
        assert forall|q: int|
            0 <= q < k + 1 && (#[trigger] resources[q]).rule().listening(
                chan,
                payload@,
            ) implies exists|i: int| 0 <= i < grown.len() && (#[trigger] grown[i]).resource == q by {
            if q < k {
                let i = choose|i: int| 0 <= i < before.len() && (#[trigger] before[i]).resource == q;
                assert(grown[i].resource == q);
            } else {
                assert(grown[before.len() as int].resource == q);
            }
        }
        assert forall|i: int, j: int| 0 <= i < j < grown.len() implies grown[i].resource
            < grown[j].resource by {
            if j == before.len() {
                assert(before[i].resource < k);
            }
        }
    }
}

proof fn lemma_known_step(resources: Seq<Resource>, k: int, chan: Seq<char>, payload: Seq<char>)
    requires
        0 <= k < resources.len(),
    ensures
        known_among(resources, k + 1, chan, payload) == (known_among(resources, k, chan, payload)
            || answers(resources[k], chan, payload)),
{
    reveal(known_among);
    if known_among(resources, k + 1, chan, payload) {
        let q = choose|q: int| 0 <= q < k + 1 && answers(#[trigger] resources[q], chan, payload);
        if q < k {
            assert(known_among(resources, k, chan, payload));
        }
    }
    if known_among(resources, k, chan, payload) {
        let q = choose|q: int| 0 <= q < k && answers(#[trigger] resources[q], chan, payload);
        assert(answers(resources[q], chan, payload));
    }
    if answers(resources[k], chan, payload) {
        assert(known_among(resources, k + 1, chan, payload));
    }
}

/// The fetches that the notification `(chan, payload)` triggers among
/// `resources`, and whether any of them knows it.
pub fn plan_notify<'a>(resources: &[Resource], chan: &str, payload: &'a str) -> (r: Notified<'a>)
    ensures
        triggered_by(r.fetches@, resources@, chan@, payload),
        r.found == known(resources@, chan@, payload@),
{
    let mut fetches: Vec<Fetch<'a>> = Vec::new();
    let mut found = false;
    let mut k: usize = 0;
    proof {
        reveal(triggered_among);
        reveal(known_among);
    }
    while k < resources.len()
        invariant
            k <= resources.len(),
            triggered_among(fetches@, resources@, k as int, chan@, payload),
            found == known_among(resources@, k as int, chan@, payload@),
        decreases resources.len() - k,
    {
        let res = &resources[k];
        proof {
            lemma_fetch_step(fetches@, resources@, k, chan@, payload);
            lemma_known_step(resources@, k as int, chan@, payload@);
        }
        if res.listen().is_listening(chan, payload) {
            found = true;
            fetches.push(Fetch { resource: k, job: res.fetch(payload) });
        } else if res.listen().is_listening_payload(chan, payload) {
            found = true;
        }
        k += 1;
    }
    Notified { fetches, found }
}

/// The first full refresh: every one of `resources`, in order, fetched with
/// an empty payload.
pub fn plan_fetch_all(resources: &[Resource]) -> (r: Vec<Fetch<'static>>)
    ensures
        r@.len() == resources@.len(),
        forall|k: int|
            0 <= k < r@.len() ==> (#[trigger] r@[k]).resource == k && r@[k].job
                == resources@[k].job(""),
{
    let mut fetches: Vec<Fetch<'static>> = Vec::new();
    let mut k: usize = 0;
    while k < resources.len()
        invariant
            k <= resources.len(),
            fetches@.len() == k,
            forall|q: int|
                0 <= q < k ==> (#[trigger] fetches@[q]).resource == q && fetches@[q].job
                    == resources@[q].job(""),
        decreases resources.len() - k,
    {
        fetches.push(Fetch { resource: k, job: resources[k].fetch("") });
        k += 1;
    }
    fetches
}

/// Whether any of `resources` knows the notification `(chan, payload)`.
pub fn any_listening_payload(resources: &[Resource], chan: &str, payload: &str) -> (r: bool)
    ensures
        r == payload_known(resources@, chan@, payload@),
{
    let mut k: usize = 0;
    while k < resources.len()
        invariant
            k <= resources.len(),
            forall|q: int|
                0 <= q < k ==> !(#[trigger] resources@[q]).rule().listening_payload(
                    chan@,
                    payload@,
                ),
        decreases resources.len() - k,
    {
        if resources[k].listen().is_listening_payload(chan, payload) {
            return true;
        }
        k += 1;
    }
    false
}

/// One notification fetches each resource that it triggers exactly once,
/// and no other resource.
pub proof fn law_triggered_once<'a>(
    fetches: Seq<Fetch<'a>>,
    resources: Seq<Resource>,
    chan: Seq<char>,
    payload: &'a str,
    k: int,
)
    requires
        triggered_by(fetches, resources, chan, payload),
        0 <= k < resources.len(),
    ensures
        resources[k].rule().listening(chan, payload@) ==> exists|i: int|
            {
                &&& 0 <= i < fetches.len()
                &&& (#[trigger] fetches[i]).resource == k
                &&& fetches[i].job == resources[k].job(payload)
                &&& forall|j: int|
                    0 <= j < fetches.len() && (#[trigger] fetches[j]).resource == k ==> j == i
            },
        !resources[k].rule().listening(chan, payload@) ==> forall|i: int|
            0 <= i < fetches.len() ==> (#[trigger] fetches[i]).resource != k,
{
    reveal(triggered_among);
    if resources[k].rule().listening(chan, payload@) {
        let i = choose|i: int| 0 <= i < fetches.len() && (#[trigger] fetches[i]).resource == k;
        assert forall|j: int|
            0 <= j < fetches.len() && (#[trigger] fetches[j]).resource == k implies j == i by {
            if j < i {
                assert(fetches[j].resource < fetches[i].resource);
            } else if i < j {
                assert(fetches[i].resource < fetches[j].resource);
            }
        }
    }
}

/// The address of the database of a user, on the socket of the local
/// server.
pub fn database_uri(username: &str) -> (r: String)
    ensures
        r@ == "postgres://"@ + username@ + "@%2Frun%2Fpostgresql/tms"@,
{
    let mut uds = String::from_str("postgres://");
    uds.append(username);
    uds.append("@%2Frun%2Fpostgresql/tms");
    uds
}

/// The statement that subscribes to `channel`.
pub open spec fn listen_statement(channel: Seq<char>) -> Seq<char> {
    "LISTEN "@ + channel
}

/// The statements that subscribe to `channels`, one for each, in order.
pub fn listen_statements(channels: &Vec<&'static str>) -> (r: Vec<String>)
    ensures
        r@.len() == channels@.len(),
        forall|i: int| 0 <= i < r@.len() ==> (#[trigger] r@[i])@ == listen_statement(channels@[i]@),
{
    let mut statements: Vec<String> = Vec::new();
    let mut i: usize = 0;
    while i < channels.len()
        invariant
            i <= channels.len(),
            statements@.len() == i,
            forall|q: int|
                0 <= q < i ==> (#[trigger] statements@[q])@ == listen_statement(channels@[q]@),
        decreases channels.len() - i,
    {
        let mut listen = String::from_str("LISTEN ");
        listen.append(channels[i]);
        statements.push(listen);
        i += 1;
    }
    statements
}

/// `statements` subscribes to each channel that a rule of `resources`
/// names, once.
pub open spec fn subscribes_to(statements: Seq<String>, resources: Seq<Resource>) -> bool {
    exists|channels: Seq<&'static str>|
        {
            &&& #[trigger] is_channel_set(channels, resources)
            &&& statements.len() == channels.len()
            &&& forall|i: int|
                0 <= i < statements.len() ==> (#[trigger] statements[i])@ == listen_statement(
                    channels[i]@,
                )
        }
}

/// Listen for notifications on all channels we need to monitor: the
/// statements to execute, one for each channel that a rule of the catalog
/// names.
pub fn listen_all() -> (r: Vec<String>)
    ensures
        subscribes_to(r@, catalog()),
{
    let resources = all();
    let channels = channel_set(resources.as_slice());
    let statements = listen_statements(&channels);
    assert(is_channel_set(channels@, catalog()));
    statements
}

/// Fetch all resources: every resource of the catalog, in catalog order,
/// with an empty payload.
pub fn fetch_all() -> (r: Vec<Fetch<'static>>)
    ensures
        r@.len() == catalog().len(),
        forall|k: int|
            0 <= k < r@.len() ==> (#[trigger] r@[k]).resource == k && r@[k].job
                == catalog()[k].job(""),
{
    let resources = all();
    plan_fetch_all(resources.as_slice())
}

/// Handle a channel notification.
///
/// * `chan` Channel name.
/// * `payload` Notification payload.
pub fn notify<'a>(chan: &str, payload: &'a str) -> (r: Notified<'a>)
    ensures
        triggered_by(r.fetches@, catalog(), chan@, payload),
        r.found == known(catalog(), chan@, payload@),
{
    let resources = all();
    plan_notify(resources.as_slice(), chan, payload)
}

/// Check if any resource is listening to a channel / payload
pub fn is_listening_payload(chan: &str, payload: &str) -> (r: bool)
    ensures
        r == payload_known(catalog(), chan@, payload@),
{
    let resources = all();
    any_listening_payload(resources.as_slice(), chan, payload)
}

} // verus!
