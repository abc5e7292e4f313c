//! States of an item, as they are shown and searched.

use vstd::prelude::*;
use vstd::string::StringExecFns;
use crate::text::{is_substring, push_char, str_contains, str_eq};

verus! {

/// Item state
#[derive(Clone, Copy, Debug, Eq, PartialEq, Structural)]
pub enum ItemState {
    /// Available for use
    Available,
    /// Deployed by operator
    Deployed,
    /// Deployed by plan / schedule
    Planned,
    /// Deployed by external system
    External,
    /// Dedicated purpose
    Dedicated,
    /// Hardware fault
    Fault,
    /// Communication offline
    Offline,
    /// Disabled by administrator
    Disabled,
    /// State not known
    Unknown,
}

/// Item states
#[derive(Clone, Debug, Default)]
pub struct ItemStates {
    all: Vec<ItemState>,
}

impl ItemState {
    /// The code of the state.
    pub open spec fn code_text(self) -> Seq<char> {
        match self {
            Self::Available => "🔹"@,
            Self::Deployed => "🔶"@,
            Self::Planned => "🕗"@,
            Self::External => "👽"@,
            Self::Dedicated => "🎯"@,
            Self::Fault => "⚠️"@,
            Self::Offline => "🔌"@,
            Self::Disabled => "🔻"@,
            Self::Unknown => "❓"@,
        }
    }

    /// The description of the state.
    pub open spec fn description_text(self) -> Seq<char> {
        match self {
            Self::Available => "available"@,
            Self::Deployed => "deployed"@,
            Self::Planned => "planned"@,
            Self::External => "external"@,
            Self::Dedicated => "dedicated"@,
            Self::Fault => "fault"@,
            Self::Offline => "offline"@,
            Self::Disabled => "disabled"@,
            Self::Unknown => "unknown"@,
        }
    }

    /// The search text occurs in the code or in the description.
    pub open spec fn matches_text(self, search: Seq<char>) -> bool {
        is_substring(search, self.code_text()) || is_substring(search, self.description_text())
    }

    /// Lookup an item state by code
    pub fn from_code(code: &str) -> (r: Option<Self>)
        ensures
            match r {
                Some(state) => state.code_text() == code@,
                None => forall|state: ItemState| state.code_text() != code@,
            },
    {
        if str_eq(code, "🔹") {
            Some(Self::Available)
        } else if str_eq(code, "🔶") {
            Some(Self::Deployed)
        } else if str_eq(code, "🕗") {
            Some(Self::Planned)
        } else if str_eq(code, "👽") {
            Some(Self::External)
        } else if str_eq(code, "🎯") {
            Some(Self::Dedicated)
        } else if str_eq(code, "⚠️") {
            Some(Self::Fault)
        } else if str_eq(code, "🔌") {
            Some(Self::Offline)
        } else if str_eq(code, "🔻") {
            Some(Self::Disabled)
        } else if str_eq(code, "❓") {
            Some(Self::Unknown)
        } else {
            None
        }
    }

    /// Get the item state code
    pub fn code(self) -> (r: &'static str)
        ensures
            r@ == self.code_text(),
    {
        match self {
            Self::Available => "🔹",
            Self::Deployed => "🔶",
            Self::Planned => "🕗",
            Self::External => "👽",
            Self::Dedicated => "🎯",
            Self::Fault => "⚠️",
            Self::Offline => "🔌",
            Self::Disabled => "🔻",
            Self::Unknown => "❓",
        }
    }

    /// Get the item state description
    pub fn description(self) -> (r: &'static str)
        ensures
            r@ == self.description_text(),
    {
        match self {
            Self::Available => "available",
            Self::Deployed => "deployed",
            Self::Planned => "planned",
            Self::External => "external",
            Self::Dedicated => "dedicated",
            Self::Fault => "fault",
            Self::Offline => "offline",
            Self::Disabled => "disabled",
            Self::Unknown => "unknown",
        }
    }

    /// Check if a search string matches
    pub fn is_match(self, search: &str) -> (r: bool)
        ensures
            r == self.matches_text(search@),
    {
        str_contains(self.code(), search) || str_contains(self.description(), search)
    }

    /// The state as it is shown: its code.
    pub fn to_string(&self) -> (r: String)
        ensures
            r@ == self.code_text(),
    {
        String::from_str(self.code())
    }
}

/// No two states share a code, so a code stands for one state only.
pub proof fn law_codes_distinct(a: ItemState, b: ItemState)
    requires
        a.code_text() == b.code_text(),
    ensures
        a == b,
{
    reveal_strlit("🔹");
    reveal_strlit("🔶");
    reveal_strlit("🕗");
    reveal_strlit("👽");
    reveal_strlit("🎯");
    reveal_strlit("⚠️");
    reveal_strlit("🔌");
    reveal_strlit("🔻");
    reveal_strlit("❓");
    assert("🔹"@[0] == '🔹');
    assert("🔶"@[0] == '🔶');
    assert("🕗"@[0] == '🕗');
    assert("👽"@[0] == '👽');
    assert("🎯"@[0] == '🎯');
    assert("⚠️"@[0] == '⚠');
    assert("🔌"@[0] == '🔌');
    assert("🔻"@[0] == '🔻');
    assert("❓"@[0] == '❓');
    assert(a.code_text()[0] == b.code_text()[0]);
}

/// The codes of the states, one after the other.
pub open spec fn codes_text(states: Seq<ItemState>) -> Seq<char>
    decreases states.len(),
{
    if states.len() == 0 {
        seq![]
    } else {
        codes_text(states.drop_last()) + states.last().code_text()
    }
}

/// Code and description of one state, with a space between them.
pub open spec fn state_text(state: ItemState) -> Seq<char> {
    state.code_text().push(' ') + state.description_text()
}

/// Code and description of each state, with a space between one state and
/// the next.
pub open spec fn states_text(states: Seq<ItemState>) -> Seq<char>
    decreases states.len(),
{
    if states.len() == 0 {
        seq![]
    } else if states_text(states.drop_last()).len() == 0 {
        state_text(states.last())
    } else {
        states_text(states.drop_last()).push(' ') + state_text(states.last())
    }
}

impl View for ItemStates {
    type V = Seq<ItemState>;

    closed spec fn view(&self) -> Seq<ItemState> {
        self.all@
    }
}

impl ItemStates {
    /// No state is held twice.
    pub open spec fn wf(&self) -> bool {
        self@.no_duplicates()
    }

    /// The one state.
    pub fn of(state: ItemState) -> (r: Self)
        ensures
            r.wf(),
            r@ == seq![state],
    {
        let r = ItemStates { all: vec![state] };
        assert(r@ =~= seq![state]);
        r
    }

    /// Get all states, in the order in which they were included
    pub fn iter(&self) -> (r: &Vec<ItemState>)
        ensures
            r@ == self@,
    {
        &self.all
    }

    /// Whether the state is included.
    pub fn contains(&self, state: ItemState) -> (r: bool)
        ensures
            r == self@.contains(state),
    {
        let mut i: usize = 0;
        while i < self.all.len()
            invariant
                i <= self.all@.len(),
                forall|j: int| 0 <= j < i ==> self.all@[j] != state,
            decreases self.all@.len() - i,
        {
            if self.all[i] == state {
                return true;
            }
            i += 1;
        }
        false
    }

    /// Include an item state
    pub fn with(self, state: ItemState) -> (r: Self)
        ensures
            r@ == if self@.contains(state) {
                self@
            } else {
                self@.push(state)
            },
            self.wf() ==> r.wf(),
    {
        let mut states = self;
        if !states.contains(state) {
            states.all.push(state);
        }
        states
    }

    /// Check if a search string matches
    pub fn is_match(&self, search: &str) -> (r: bool)
        ensures
            r == exists|i: int| 0 <= i < self@.len() && (#[trigger] self@[i]).matches_text(search@),
    {
        let mut i: usize = 0;
        while i < self.all.len()
            invariant
                i <= self.all@.len(),
                forall|j: int| 0 <= j < i ==> !(#[trigger] self.all@[j]).matches_text(search@),
            decreases self.all@.len() - i,
        {
            if self.all[i].is_match(search) {
                assert(self@[i as int].matches_text(search@));
                return true;
            }
            i += 1;
        }
        false
    }

    /// Get description of item states
    pub fn description(&self) -> (r: String)
        ensures
            r@ == states_text(self@),
    {
        let mut desc = String::new();
        let mut i: usize = 0;
        while i < self.all.len()
            invariant
                i <= self.all@.len(),
                desc@ == states_text(self.all@.take(i as int)),
            decreases self.all@.len() - i,
        {
            let state = self.all[i];
            let ghost before = desc@;
            if !desc.as_str().is_empty() {
                push_char(&mut desc, ' ');
            }
            desc.append(state.code());
            push_char(&mut desc, ' ');
            desc.append(state.description());
            proof {
                assert(self.all@.take(i as int + 1).drop_last() =~= self.all@.take(i as int));
                assert(desc@ =~= states_text(self.all@.take(i as int + 1)));
            }
            i += 1;
        }
        assert(self.all@.take(self.all@.len() as int) =~= self.all@);
        desc
    }

    /// The states as they are shown: their codes, one after the other.
    pub fn to_string(&self) -> (r: String)
        ensures
            r@ == codes_text(self@),
    {
        let mut out = String::new();
        let mut i: usize = 0;
        while i < self.all.len()
            invariant
                i <= self.all@.len(),
                out@ == codes_text(self.all@.take(i as int)),
            decreases self.all@.len() - i,
        {
            out.append(self.all[i].code());
            proof {
                assert(self.all@.take(i as int + 1).drop_last() =~= self.all@.take(i as int));
            }
            i += 1;
        }
        assert(self.all@.take(self.all@.len() as int) =~= self.all@);
        out
    }
}

} // verus!
