//! Alarms, as cards.

use vstd::prelude::*;
use vstd::string::StringExecFns;
use crate::card::{disabled_attr, disabled_text};
use crate::html::{encode, encode_opt, escaped, number_or_empty, opt_text, opt_val};
use crate::json::{
    changed_number, changed_text, field_views, json_object, json_object_text,
    with_changed_number, with_changed_text, Field, JsonValue, JsonView,
};
use crate::search::{Card, DeviceAnc};
use crate::text::{contains_lower, is_substring, lower_contains, str_contains, str_eq};

verus! {

/// Alarm
#[derive(Clone, Debug, Default)]
pub struct Alarm {
    pub name: String,
    pub description: String,
    pub controller: Option<String>,
    pub state: bool,
    // full attributes
    pub pin: Option<u32>,
    pub trigger_time: Option<String>,
}

/// Type name of alarms
pub const TNAME: &'static str = "Alarm";

/// Symbol of alarms
pub const SYMBOL: &'static str = "📢";

/// Display name of alarms
pub const ENAME: &'static str = "📢 Alarm";

/// Name of alarms in the interface to the server
pub const UNAME: &'static str = "alarm";

/// Alarms have a Status view
pub const HAS_STATUS: bool = true;

/// The state of an alarm as it is displayed: clear or triggered for an
/// alarm that has a controller, and unknown for one that has none; in a
/// long form with a word, and in a short form with a symbol only.
pub open spec fn state_text(has_controller: bool, state: bool, long: bool) -> Seq<char> {
    if has_controller {
        if state {
            if long {
                "triggered 😧"@
            } else {
                "😧"@
            }
        } else {
            if long {
                "clear 👍"@
            } else {
                "👍"@
            }
        }
    } else {
        if long {
            "unknown ❓"@
        } else {
            "❓"@
        }
    }
}

impl Alarm {
    /// The time of the last trigger, or a dash where there is none.
    pub open spec fn trigger_text(&self) -> Seq<char> {
        match self.trigger_time {
            Some(t) => t@,
            None => "-"@,
        }
    }

    /// The compact view.
    pub open spec fn compact_text(&self) -> Seq<char> {
        "<span>"@
            + state_text(self.controller is Some, self.state, false)
            + "</span><span"@
            + disabled_text(self.controller is Some)
            + ">"@
            + escaped(self.description@)
            + "</span><span class='ob_name'>"@
            + escaped(self.name@)
            + "</span>"@
    }

    /// The status view.
    pub open spec fn status_text(&self) -> Seq<char> {
        "<div class='row'><span class='info'>"@
            + escaped(self.description@)
            + "</span><span class='info'>"@
            + state_text(self.controller is Some, self.state, true)
            + "</span></div><div class='row'><span>Triggered</span><span class='info'>"@
            + self.trigger_text()
            + "</span></div>"@
    }

    /// The edit view.
    pub open spec fn edit_text(&self, anc: &DeviceAnc) -> Seq<char> {
        anc.controller_loc_html@
            + "<div class='row'><label for='edit_desc'>Description</label>\
                <input id='edit_desc' maxlength='24' size='24' value='"@
            + escaped(self.description@)
            + "'/></div><div class='row'><label for='edit_ctrl'>Controller</label>\
                <input id='edit_ctrl' maxlength='20' size='20' value='"@
            + escaped(opt_text(self.controller))
            + "'/></div><div class='row'><label for='edit_pin'>Pin</label>\
                <input id='edit_pin' type='number' min='1' max='104' size='8' value='"@
            + number_or_empty(self.pin)
            + "'/></div>"@
    }

    /// The search text occurs in the description or the name, both put
    /// into lower case, or in the long form of the state.
    pub open spec fn matches_text(&self, search: Seq<char>) -> bool {
        lower_contains(self.description@, search) || lower_contains(self.name@, search)
            || is_substring(search, state_text(self.controller is Some, self.state, true))
    }

    /// The fields that an edit changes, in the order description,
    /// controller, pin. The description counts as changed where one was
    /// entered that differs; a controller that is entered empty counts
    /// as none.
    pub open spec fn changes(
        &self,
        desc: Option<String>,
        ctrl: Option<String>,
        pin: Option<u32>,
    ) -> Seq<(Seq<char>, JsonView)> {
        let first: Seq<(Seq<char>, JsonView)> = match desc {
            Some(d) if d@ != self.description@ => seq![("description"@, JsonView::Text(d@))],
            _ => seq![],
        };
        let entered = match ctrl {
            Some(c) if c@.len() > 0 => ctrl,
            _ => None::<String>,
        };
        with_changed_number(
            with_changed_text(first, "controller"@, entered, self.controller),
            "pin"@,
            pin,
            self.pin,
        )
    }

    /// Get the alarm state to display
    pub fn state(&self, long: bool) -> (r: &'static str)
        ensures
            r@ == state_text(self.controller is Some, self.state, long),
    {
        match (self.controller.is_some(), self.state, long) {
            (true, false, false) => "👍",
            (true, false, true) => "clear 👍",
            (true, true, false) => "😧",
            (true, true, true) => "triggered 😧",
            (false, _, true) => "unknown ❓",
            _ => "❓",
        }
    }

    /// The object as it is shown: its name, escaped for HTML.
    pub fn to_string(&self) -> (r: String)
        ensures
            r@ == escaped(self.name@),
    {
        encode(self.name.as_str())
    }

    /// Get controller
    pub fn controller(&self) -> (r: Option<&str>)
        ensures
            match r {
                Some(c) => self.controller matches Some(own) && own@ == c@,
                None => self.controller is None,
            },
    {
        match &self.controller {
            Some(c) => Some(c.as_str()),
            None => None,
        }
    }

    /// Set the name
    pub fn with_name(self, name: &str) -> (r: Self)
        ensures
            r.name@ == name@,
            r.description == self.description,
            r.controller == self.controller,
            r.state == self.state,
            r.pin == self.pin,
            r.trigger_time == self.trigger_time,
    {
        let mut alarm = self;
        alarm.name = String::from_str(name);
        alarm
    }

    /// Convert to status HTML
    pub fn to_html_status(&self, _anc: &DeviceAnc) -> (r: String)
        ensures
            r@ == self.status_text(),
    {
        let description = encode(self.description.as_str());
        let state = self.state(true);
        let trigger_time = match &self.trigger_time {
            Some(t) => t.as_str(),
            None => "-",
        };
        let mut html = String::from_str("<div class='row'><span class='info'>");
        html.append(description.as_str());
        html.append("</span><span class='info'>");
        html.append(state);
        html.append("</span></div><div class='row'><span>Triggered</span><span class='info'>");
        html.append(trigger_time);
        html.append("</span></div>");
        html
    }

    /// Convert to edit HTML
    pub fn to_html_edit(&self, anc: &DeviceAnc) -> (r: String)
        ensures
            r@ == self.edit_text(anc),
    {
        let description = encode(self.description.as_str());
        let controller = encode_opt(&self.controller);
        let pin = opt_val(self.pin);
        let mut html = anc.controller_loc_html.clone();
        html.append("<div class='row'><label for='edit_desc'>Description</label>\
            <input id='edit_desc' maxlength='24' size='24' value='");
        html.append(description.as_str());
        html.append("'/></div><div class='row'><label for='edit_ctrl'>Controller</label>\
            <input id='edit_ctrl' maxlength='20' size='20' value='");
        html.append(controller.as_str());
        html.append("'/></div><div class='row'><label for='edit_pin'>Pin</label>\
            <input id='edit_pin' type='number' min='1' max='104' size='8' value='");
        html.append(pin.as_str());
        html.append("'/></div>");
        html
    }

    /// Get changed fields from Edit form
    ///
    /// * `desc` Description that was entered, if the form holds one.
    /// * `ctrl` Controller that was entered.
    /// * `pin` Pin that was entered.
    pub fn changed_fields(
        &self,
        desc: &Option<String>,
        ctrl: &Option<String>,
        pin: Option<u32>,
    ) -> (r: String)
        ensures
            r@ == json_object_text(self.changes(*desc, *ctrl, pin)),
    {
        let mut fields: Vec<Field> = Vec::new();
        if let Some(d) = desc {
            if !str_eq(d.as_str(), self.description.as_str()) {
                fields.push(
                    Field { key: String::from_str("description"), value: JsonValue::Text(d.clone()) },
                );
            }
        }
        let ghost first = field_views(fields@);
        proof {
            if desc is Some && desc->0@ != self.description@ {
                assert(first =~= seq![("description"@, JsonView::Text(desc->0@))]);
            } else {
                assert(first =~= Seq::<(Seq<char>, JsonView)>::empty());
            }
        }
        let entered = match ctrl {
            Some(c) => if c.as_str().is_empty() {
                None
            } else {
                Some(c.clone())
            },
            None => None,
        };
        changed_text(&mut fields, "controller", &entered, &self.controller);
        changed_number(&mut fields, "pin", pin, self.pin);
        json_object(&fields)
    }
}

impl Card for Alarm {
    open spec fn name_text(&self) -> Seq<char> {
        self.name@
    }

    open spec fn matches(&self, search: Seq<char>, anc: &DeviceAnc) -> bool {
        self.matches_text(search)
    }

    open spec fn compact_html(&self, anc: &DeviceAnc) -> Seq<char> {
        self.compact_text()
    }

    fn name(&self) -> (r: &str) {
        self.name.as_str()
    }

    /// Check if a search string matches
    fn is_match(&self, search: &str, _anc: &DeviceAnc) -> (r: bool) {
        contains_lower(self.description.as_str(), search) || contains_lower(
            self.name.as_str(),
            search,
        ) || str_contains(self.state(true), search)
    }

    /// Convert to compact HTML
    fn to_html_compact(&self, _anc: &DeviceAnc) -> (r: String) {
        let state = self.state(false);
        let description = encode(self.description.as_str());
        let disabled = disabled_attr(self.controller.is_some());
        let shown = encode(self.name.as_str());
        let mut html = String::from_str("<span>");
        html.append(state);
        html.append("</span><span");
        html.append(disabled);
        html.append(">");
        html.append(description.as_str());
        html.append("</span><span class='ob_name'>");
        html.append(shown.as_str());
        html.append("</span>");
        html
    }
}

} // verus!
