//! Trigger rules: which change notifications cause a resource to be fetched.

use vstd::prelude::*;
use crate::text::str_eq;

verus! {

/// Trigger rule of a resource, over database notification channels.
#[derive(Debug, PartialEq, Eq, Hash)]
pub enum Listen {
    /// Do not listen
    Nope,
    /// Listen for all payloads.
    ///
    /// * channel name
    All(&'static str),
    /// Listen for specific payloads.
    ///
    /// * channel name
    /// * payloads to include
    Include(&'static str, &'static [&'static str]),
    /// Listen while excluding payloads.
    ///
    /// * channel name
    /// * payloads to exclude
    Exclude(&'static str, &'static [&'static str]),
    /// Listen for all payloads on two channels.
    ///
    /// * first channel name
    /// * second channel name
    Two(&'static str, &'static str),
}

/// `payload` is one of `names`.
pub open spec fn names_contain(names: Seq<&'static str>, payload: Seq<char>) -> bool {
    exists|i: int| 0 <= i < names.len() && (#[trigger] names[i])@ == payload
}

/// Whether `payload` is one of `names`.
pub fn contains_name(names: &[&'static str], payload: &str) -> (r: bool)
    ensures
        r == names_contain(names@, payload@),
{
    let mut i: usize = 0;
    while i < names.len()
        invariant
            i <= names.len(),
            forall|j: int| 0 <= j < i ==> (#[trigger] names@[j])@ != payload@,
        decreases names.len() - i,
    {
        if str_eq(names[i], payload) {
            return true;
        }
        i += 1;
    }
    false
}

impl Listen {
    /// The channels that the rule names, in the order it names them.
    pub open spec fn channels(&self) -> Seq<&'static str> {
        match *self {
            Listen::Nope => seq![],
            Listen::All(n) => seq![n],
            Listen::Include(n, _) => seq![n],
            Listen::Exclude(n, _) => seq![n],
            Listen::Two(n0, n1) => seq![n0, n1],
        }
    }

    /// The rule triggers a fetch on the notification `(chan, payload)`.
    pub open spec fn listening(&self, chan: Seq<char>, payload: Seq<char>) -> bool {
        match *self {
            Listen::Nope => false,
            Listen::All(n) => n@ == chan,
            Listen::Include(n, inc) => n@ == chan && names_contain(inc@, payload),
            Listen::Exclude(n, exc) => n@ == chan && !names_contain(exc@, payload),
            Listen::Two(n0, n1) => n0@ == chan || n1@ == chan,
        }
    }

    /// The notification `(chan, payload)` is known to the rule: it either
    /// triggers a fetch, or carries a payload that the rule leaves out on
    /// purpose.
    pub open spec fn listening_payload(&self, chan: Seq<char>, payload: Seq<char>) -> bool {
        match *self {
            Listen::Exclude(n, exc) => n@ == chan && names_contain(exc@, payload),
            _ => self.listening(chan, payload),
        }
    }

    /// Get the LISTEN channel names
    pub fn channel_names(&self) -> (r: Vec<&'static str>)
        ensures
            r@ == self.channels(),
    {
        let r = match self {
            Listen::Nope => Vec::new(),
            Listen::All(n) => vec![*n],
            Listen::Include(n, _) => vec![*n],
            Listen::Exclude(n, _) => vec![*n],
            Listen::Two(n0, n1) => vec![*n0, *n1],
        };
        assert(r@ =~= self.channels());
        r
    }

    /// Check if listening to a channel
    pub fn is_listening(&self, chan: &str, payload: &str) -> (r: bool)
        ensures
            r == self.listening(chan@, payload@),
    {
        match self {
            Listen::Nope => false,
            Listen::All(n) => str_eq(n, chan),
            Listen::Include(n, inc) => str_eq(n, chan) && contains_name(inc, payload),
            Listen::Exclude(n, exc) => str_eq(n, chan) && !contains_name(exc, payload),
            Listen::Two(n0, n1) => str_eq(n0, chan) || str_eq(n1, chan),
        }
    }

    /// Check if listening to a channel / payload
    pub fn is_listening_payload(&self, chan: &str, payload: &str) -> (r: bool)
        ensures
            r == self.listening_payload(chan@, payload@),
    {
        if let Listen::Exclude(n, exc) = self {
            str_eq(n, chan) && contains_name(exc, payload)
        } else {
            self.is_listening(chan, payload)
        }
    }
}

/// A rule that excludes payloads triggers on no listed payload of its
/// channel, on every other payload of its channel, and on nothing that
/// arrives on another channel.
pub proof fn law_exclude(
    channel: &'static str,
    blocked: &'static [&'static str],
    chan: Seq<char>,
    payload: Seq<char>,
)
    ensures
        chan == channel@ && names_contain(blocked@, payload) ==> !Listen::Exclude(
            channel,
            blocked,
        ).listening(chan, payload),
        chan == channel@ && !names_contain(blocked@, payload) ==> Listen::Exclude(
            channel,
            blocked,
        ).listening(chan, payload),
        chan != channel@ ==> !Listen::Exclude(channel, blocked).listening(chan, payload),
{
}

/// A rule that includes payloads triggers only on a listed payload that
/// arrives on its channel, and on each of those.
pub proof fn law_include(
    channel: &'static str,
    allowed: &'static [&'static str],
    chan: Seq<char>,
    payload: Seq<char>,
)
    ensures
        Listen::Include(channel, allowed).listening(chan, payload) <==> (chan == channel@
            && names_contain(allowed@, payload)),
{
}

/// The second predicate is the first for every rule but one that excludes
/// payloads; for such a rule it holds exactly of the excluded payloads
/// that arrive on its channel, on which the first is false.
pub proof fn law_excluded_payload(rule: Listen, chan: Seq<char>, payload: Seq<char>)
    ensures
        !(rule is Exclude) ==> rule.listening_payload(chan, payload) == rule.listening(
            chan,
            payload,
        ),
        rule matches Listen::Exclude(channel, blocked) ==> rule.listening_payload(chan, payload)
            == (chan == channel@ && names_contain(blocked@, payload)),
        rule is Exclude ==> !(rule.listening_payload(chan, payload) && rule.listening(
            chan,
            payload,
        )),
{
}

} // verus!
