//! Dynamic message signs, as cards.

use vstd::prelude::*;
use vstd::string::StringExecFns;
use vstd::view::View as _;
use crate::card::{
    create_html, disabled_attr, disabled_text, to_html_create, View, EDIT_BUTTON, LOC_BUTTON,
};
use crate::html::{
    encode, encode_opt, encode_opt_prefix, escaped, escaped_prefix, number_or_empty, opt_text,
    opt_val,
};
use crate::json::{
    changed_number, changed_text, field_views, json_object, json_object_text, with_changed_number,
    with_changed_text, Field, JsonView,
};
use crate::search::{Card, DeviceAnc};
use crate::text::{
    contains_lower, is_substring, lower_contains, opt_contains_lower, str_contains,
};

verus! {

/// Dms
#[derive(Clone, Debug, Default)]
pub struct Dms {
    pub name: String,
    pub location: Option<String>,
    pub controller: Option<String>,
    // full attributes
    pub geo_loc: Option<String>,
    pub pin: Option<u32>,
    pub msg_current: Option<String>,
}

/// Name of signs in the interface to the server
pub const RESOURCE_N: &'static str = "dms";

/// Most characters of a location that the status view shows.
pub const LOCATION_LEN: usize = 64;

impl Dms {
    /// The compact view.
    pub open spec fn compact_text(&self, anc: &DeviceAnc) -> Seq<char> {
        "<div class='ob_name end'>"@
            + anc.item_state.code_text()
            + " "@
            + escaped(self.name@)
            + "</div><div class='info fill"@
            + disabled_text(self.controller is Some)
            + "'>"@
            + escaped(opt_text(self.location))
            + "</div>"@
    }

    /// The image of the current message, where there is one.
    pub open spec fn message_text(&self) -> Seq<char> {
        match self.msg_current {
            Some(msg) => "<img class='message' src='/iris/img/"@ + msg@ + ".gif'/>"@,
            None => seq![],
        }
    }

    /// The row of buttons of a sign that may be configured: to its
    /// controller, to its location and to its edit view.
    pub open spec fn buttons_text(anc: &DeviceAnc, config: bool) -> Seq<char> {
        if config {
            "<div class='row'>"@ + anc.controller_button@ + LOC_BUTTON@ + EDIT_BUTTON@ + "</div>"@
        } else {
            seq![]
        }
    }

    /// The status view: the location, the image of the current message,
    /// and the buttons.
    pub open spec fn status_text(&self, anc: &DeviceAnc, config: bool) -> Seq<char> {
        "<div class='row'><span class='info fill'>"@
            + escaped_prefix(opt_text(self.location), 64)
            + "</span></div>"@
            + self.message_text()
            + Self::buttons_text(anc, config)
    }

    /// The edit view.
    pub open spec fn edit_text(&self) -> Seq<char> {
        "<div class='row'><label for='controller'>Controller</label>\
            <input id='controller' maxlength='20' size='20' value='"@
            + escaped(opt_text(self.controller))
            + "'/></div><div class='row'><label for='pin'>Pin</label>\
                <input id='pin' type='number' min='1' max='104' size='8' value='"@
            + number_or_empty(self.pin)
            + "'/></div>"@
    }

    /// The search text occurs in the name or the location, both put into
    /// lower case, or in the code of the state.
    pub open spec fn matches_text(&self, search: Seq<char>, anc: &DeviceAnc) -> bool {
        lower_contains(self.name@, search) || (self.location matches Some(loc) && lower_contains(
            loc@,
            search,
        )) || is_substring(search, anc.item_state.code_text())
    }

    /// The view can be shown.
    pub open spec fn shows(view: View) -> bool {
        view is Create || view is Compact || view is Status || view is Edit
    }

    /// The HTML of a view.
    pub open spec fn html_text(&self, view: View, anc: &DeviceAnc, config: bool) -> Seq<char> {
        match view {
            View::Create => create_html(self.name@),
            View::Compact => self.compact_text(anc),
            View::Status => self.status_text(anc, config),
            _ => self.edit_text(),
        }
    }

    /// The fields that an edit changes, in the order controller, pin.
    pub open spec fn changes(&self, controller: Option<String>, pin: Option<u32>) -> Seq<
        (Seq<char>, JsonView),
    > {
        with_changed_number(
            with_changed_text(seq![], "controller"@, controller, self.controller),
            "pin"@,
            pin,
            self.pin,
        )
    }

    /// Convert to Status HTML
    pub fn to_html_status(&self, anc: &DeviceAnc, config: bool) -> (r: String)
        ensures
            r@ == self.status_text(anc, config),
    {
        let location = encode_opt_prefix(&self.location, LOCATION_LEN);
        let mut status = String::from_str("<div class='row'><span class='info fill'>");
        status.append(location.as_str());
        status.append("</span></div>");
        if let Some(msg_current) = &self.msg_current {
            status.append("<img class='message' src='/iris/img/");
            status.append(msg_current.as_str());
            status.append(".gif'/>");
        }
        assert(status@ =~=
            "<div class='row'><span class='info fill'>"@
            + escaped_prefix(opt_text(self.location), 64)
            + "</span></div>"@
            + self.message_text()
        );
        if config {
            status.append("<div class='row'>");
            status.append(anc.controller_button.as_str());
            status.append(LOC_BUTTON);
            status.append(EDIT_BUTTON);
            status.append("</div>");
        }
        assert(status@ =~= self.status_text(anc, config));
        status
    }

    /// Convert to Edit HTML
    pub fn to_html_edit(&self) -> (r: String)
        ensures
            r@ == self.edit_text(),
    {
        let controller = encode_opt(&self.controller);
        let pin = opt_val(self.pin);
        let mut html = String::from_str("<div class='row'>\
            <label for='controller'>Controller</label>\
            <input id='controller' maxlength='20' size='20' value='");
        html.append(controller.as_str());
        html.append("'/></div><div class='row'><label for='pin'>Pin</label>\
            <input id='pin' type='number' min='1' max='104' size='8' value='");
        html.append(pin.as_str());
        html.append("'/></div>");
        html
    }

    /// The object as it is shown: its name, escaped for HTML.
    pub fn to_string(&self) -> (r: String)
        ensures
            r@ == escaped(self.name@),
    {
        encode(self.name.as_str())
    }

    /// Get controller
    pub fn controller(&self) -> (r: Option<&str>)
        ensures
            match r {
                Some(c) => self.controller matches Some(own) && own@ == c@,
                None => self.controller is None,
            },
    {
        match &self.controller {
            Some(c) => Some(c.as_str()),
            None => None,
        }
    }

    /// Set the name
    pub fn with_name(self, name: &str) -> (r: Self)
        ensures
            r.name@ == name@,
            r.location == self.location,
            r.controller == self.controller,
            r.geo_loc == self.geo_loc,
            r.pin == self.pin,
            r.msg_current == self.msg_current,
    {
        let mut dms = self;
        dms.name = String::from_str(name);
        dms
    }

    /// Get geo location name
    pub fn geo_loc(&self) -> (r: Option<&str>)
        ensures
            match r {
                Some(g) => self.geo_loc matches Some(own) && own@ == g@,
                None => self.geo_loc is None,
            },
    {
        match &self.geo_loc {
            Some(g) => Some(g.as_str()),
            None => None,
        }
    }

    /// Convert to HTML view
    ///
    /// * `config` Whether the status view offers the buttons that lead to
    ///   the configuration.
    pub fn to_html(&self, view: View, anc: &DeviceAnc, config: bool) -> (r: String)
        requires
            Self::shows(view),
        ensures
            r@ == self.html_text(view, anc, config),
    {
        match view {
            View::Create => to_html_create(self.name.as_str()),
            View::Compact => self.to_html_compact(anc),
            View::Status => self.to_html_status(anc, config),
            _ => self.to_html_edit(),
        }
    }

    /// Get changed fields from Edit form
    ///
    /// * `controller` Controller that was entered.
    /// * `pin` Pin that was entered.
    pub fn changed_fields(&self, controller: &Option<String>, pin: Option<u32>) -> (r: String)
        ensures
            r@ == json_object_text(self.changes(*controller, pin)),
    {
        let mut fields: Vec<Field> = Vec::new();
        assert(field_views(fields@) =~= Seq::<(Seq<char>, JsonView)>::empty());
        changed_text(&mut fields, "controller", controller, &self.controller);
        changed_number(&mut fields, "pin", pin, self.pin);
        json_object(&fields)
    }
}

impl Card for Dms {
    open spec fn name_text(&self) -> Seq<char> {
        self.name@
    }

    open spec fn matches(&self, search: Seq<char>, anc: &DeviceAnc) -> bool {
        self.matches_text(search, anc)
    }

    open spec fn compact_html(&self, anc: &DeviceAnc) -> Seq<char> {
        self.compact_text(anc)
    }

    fn name(&self) -> (r: &str) {
        self.name.as_str()
    }

    /// Check if a search string matches
    fn is_match(&self, search: &str, anc: &DeviceAnc) -> (r: bool) {
        contains_lower(self.name.as_str(), search) || opt_contains_lower(&self.location, search)
            || str_contains(anc.item_state.code(), search)
    }

    /// Convert to Compact HTML
    fn to_html_compact(&self, anc: &DeviceAnc) -> (r: String) {
        let location = encode_opt(&self.location);
        let disabled = disabled_attr(self.controller.is_some());
        let comm_state = anc.item_state.code();
        let shown = encode(self.name.as_str());
        let mut html = String::from_str("<div class='ob_name end'>");
        html.append(comm_state);
        html.append(" ");
        html.append(shown.as_str());
        html.append("</div><div class='info fill");
        html.append(disabled);
        html.append("'>");
        html.append(location.as_str());
        html.append("</div>");
        html
    }
}

} // verus!
