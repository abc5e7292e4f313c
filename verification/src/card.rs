//! Cards: the resource types that the user interface shows, their names,
//! the views of a card, and the HTML frame around each view.

use vstd::prelude::*;
use vstd::string::{StrSliceExecFns, StringExecFns};
use vstd::utf8::encode_utf8;
use vstd::view::View as _;
use crate::html::{encode, escaped};
use crate::text::{percent_encode, percent_encoded, str_eq};

verus! {

/// CSS class for titles
pub const TITLE: &'static str = "title";

/// CSS class for names
pub const NAME: &'static str = "ob_name";

/// Compact "Create" card
pub const CREATE_COMPACT: &'static str = "<span class='create'>Create 🆕</span>";

/// Location button
pub const LOC_BUTTON: &'static str = "<button id='ob_loc' type='button'>🗺️ Location</button>";

/// Edit button
pub const EDIT_BUTTON: &'static str = "<button id='ob_edit' type='button'>📝 Edit</button>";

/// Resource types
#[derive(Clone, Copy, Debug, PartialEq, Eq, Structural)]
pub enum Resource {
    Alarm,
    Beacon,
    CabinetStyle,
    Camera,
    CommConfig,
    CommLink,
    Controller,
    GeoLoc,
    LaneMarking,
    Modem,
    Permission,
    RampMeter,
    Role,
    User,
    WeatherSensor,
    Unknown,
}

/// Card View
#[derive(Clone, Copy, Debug, PartialEq, Eq, Structural)]
pub enum View {
    /// Compact Create view
    CreateCompact,
    /// Create view
    Create,
    /// Compact view
    Compact,
    /// Status view
    Status,
    /// Edit view
    Edit,
    /// Location view
    Location,
    /// Search view
    Search,
}

/// What has to be fetched for a card, and the frame that goes around it.
#[derive(Clone, Copy, Debug, PartialEq, Eq, Structural)]
pub enum CardRequest {
    /// Nothing is fetched: the card is the compact "Create" card.
    CreateCompact,
    /// The Create view of a new object, in the Create frame.
    Create,
    /// The Compact view, as it is.
    Compact,
    /// The Edit view of the object's location, in the Edit frame of a
    /// location.
    Location,
    /// The Status view, in the Status frame.
    Status,
    /// The Edit view, in the Edit frame.
    Edit,
}

/// Where the name of an object's location comes from.
#[derive(Clone, Copy, Debug, PartialEq, Eq, Structural)]
pub enum GeoLocSource {
    /// The object names its location.
    Primary,
    /// The object is a location: its own name.
    Own,
    /// The resource type has no location.
    Absent,
}

/// Position of the first space of a text, or its length where it has
/// none.
pub open spec fn first_space(s: Seq<char>) -> int
    decreases s.len(),
{
    if s.len() == 0 {
        0
    } else if s[0] == ' ' {
        0
    } else {
        1 + first_space(s.skip(1))
    }
}

/// The text up to its first space.
pub open spec fn first_word(s: Seq<char>) -> Seq<char> {
    s.take(first_space(s))
}

proof fn lemma_first_space(s: Seq<char>, n: int)
    requires
        0 <= n <= s.len(),
        forall|i: int| 0 <= i < n ==> s[i] != ' ',
        n == s.len() || s[n] == ' ',
    ensures
        first_space(s) == n,
    decreases n,
{
    if n > 0 {
        lemma_first_space(s.skip(1), n - 1);
    }
}

impl Resource {
    /// The name of the resource type in the interface to the server.
    pub open spec fn name_text(self) -> Seq<char> {
        match self {
            Self::Alarm => "alarm"@,
            Self::Beacon => "beacon"@,
            Self::CabinetStyle => "cabinet_style"@,
            Self::Camera => "camera"@,
            Self::CommConfig => "comm_config"@,
            Self::CommLink => "comm_link"@,
            Self::Controller => "controller"@,
            Self::GeoLoc => "geo_loc"@,
            Self::LaneMarking => "lane_marking"@,
            Self::Modem => "modem"@,
            Self::Permission => "permission"@,
            Self::RampMeter => "ramp_meter"@,
            Self::Role => "role"@,
            Self::User => "user"@,
            Self::WeatherSensor => "weather_sensor"@,
            Self::Unknown => ""@,
        }
    }

    /// The resource type of a name: the first in the order of declaration
    /// that bears it, and `Unknown` where none does.
    pub open spec fn named(name: Seq<char>) -> Self {
        if name == Self::Alarm.name_text() {
            Self::Alarm
        } else if name == Self::Beacon.name_text() {
            Self::Beacon
        } else if name == Self::CabinetStyle.name_text() {
            Self::CabinetStyle
        } else if name == Self::Camera.name_text() {
            Self::Camera
        } else if name == Self::CommConfig.name_text() {
            Self::CommConfig
        } else if name == Self::CommLink.name_text() {
            Self::CommLink
        } else if name == Self::Controller.name_text() {
            Self::Controller
        } else if name == Self::GeoLoc.name_text() {
            Self::GeoLoc
        } else if name == Self::LaneMarking.name_text() {
            Self::LaneMarking
        } else if name == Self::Modem.name_text() {
            Self::Modem
        } else if name == Self::Permission.name_text() {
            Self::Permission
        } else if name == Self::RampMeter.name_text() {
            Self::RampMeter
        } else if name == Self::Role.name_text() {
            Self::Role
        } else if name == Self::User.name_text() {
            Self::User
        } else if name == Self::WeatherSensor.name_text() {
            Self::WeatherSensor
        } else {
            Self::Unknown
        }
    }

    /// The name of the resource type as it is displayed: a symbol, a
    /// space, and words.
    pub open spec fn display_text(self) -> Seq<char> {
        match self {
            Self::Alarm => "📢 Alarm"@,
            Self::Beacon => "🔆 Beacon"@,
            Self::CabinetStyle => "🗄️ Cabinet Style"@,
            Self::Camera => "🎥 Camera"@,
            Self::CommConfig => "📡 Comm Config"@,
            Self::CommLink => "🔗 Comm Link"@,
            Self::Controller => "🎛️ Controller"@,
            Self::GeoLoc => "🗺️ Location"@,
            Self::LaneMarking => "⛙ Lane Marking"@,
            Self::Modem => "🖀 Modem"@,
            Self::Permission => "🗝️ Permission"@,
            Self::RampMeter => "🚦 Ramp Meter"@,
            Self::Role => "💪 Role"@,
            Self::User => "👤 User"@,
            Self::WeatherSensor => "🌦️ Weather Sensor"@,
            Self::Unknown => "❓ Unknown"@,
        }
    }

    /// The resource type has a Status view.
    pub open spec fn status_view(self) -> bool {
        self is Alarm || self is Beacon || self is Camera || self is CommLink || self is Controller
            || self is GeoLoc || self is LaneMarking || self is RampMeter || self is WeatherSensor
    }

    /// The address of an object: the path of the interface, the name of
    /// the resource type, and the object's name percent-encoded.
    pub open spec fn uri_text(self, name: Seq<char>) -> Seq<char> {
        "/iris/api/"@ + self.name_text() + "/"@ + percent_encoded(encode_utf8(name))
    }

    /// Lookup a resource by name
    pub fn from_name(res: &str) -> (r: Self)
        ensures
            r == Self::named(res@),
    {
        if str_eq(res, "alarm") {
            Self::Alarm
        } else if str_eq(res, "beacon") {
            Self::Beacon
        } else if str_eq(res, "cabinet_style") {
            Self::CabinetStyle
        } else if str_eq(res, "camera") {
            Self::Camera
        } else if str_eq(res, "comm_config") {
            Self::CommConfig
        } else if str_eq(res, "comm_link") {
            Self::CommLink
        } else if str_eq(res, "controller") {
            Self::Controller
        } else if str_eq(res, "geo_loc") {
            Self::GeoLoc
        } else if str_eq(res, "lane_marking") {
            Self::LaneMarking
        } else if str_eq(res, "modem") {
            Self::Modem
        } else if str_eq(res, "permission") {
            Self::Permission
        } else if str_eq(res, "ramp_meter") {
            Self::RampMeter
        } else if str_eq(res, "role") {
            Self::Role
        } else if str_eq(res, "user") {
            Self::User
        } else if str_eq(res, "weather_sensor") {
            Self::WeatherSensor
        } else {
            Self::Unknown
        }
    }

    /// Get resource name
    pub fn rname(self) -> (r: &'static str)
        ensures
            r@ == self.name_text(),
    {
        match self {
            Self::Alarm => "alarm",
            Self::Beacon => "beacon",
            Self::CabinetStyle => "cabinet_style",
            Self::Camera => "camera",
            Self::CommConfig => "comm_config",
            Self::CommLink => "comm_link",
            Self::Controller => "controller",
            Self::GeoLoc => "geo_loc",
            Self::LaneMarking => "lane_marking",
            Self::Modem => "modem",
            Self::Permission => "permission",
            Self::RampMeter => "ramp_meter",
            Self::Role => "role",
            Self::User => "user",
            Self::WeatherSensor => "weather_sensor",
            Self::Unknown => "",
        }
    }

    /// Lookup display name
    pub fn dname(self) -> (r: &'static str)
        ensures
            r@ == self.display_text(),
    {
        match self {
            Self::Alarm => "📢 Alarm",
            Self::Beacon => "🔆 Beacon",
            Self::CabinetStyle => "🗄️ Cabinet Style",
            Self::Camera => "🎥 Camera",
            Self::CommConfig => "📡 Comm Config",
            Self::CommLink => "🔗 Comm Link",
            Self::Controller => "🎛️ Controller",
            Self::GeoLoc => "🗺️ Location",
            Self::LaneMarking => "⛙ Lane Marking",
            Self::Modem => "🖀 Modem",
            Self::Permission => "🗝️ Permission",
            Self::RampMeter => "🚦 Ramp Meter",
            Self::Role => "💪 Role",
            Self::User => "👤 User",
            Self::WeatherSensor => "🌦️ Weather Sensor",
            Self::Unknown => "❓ Unknown",
        }
    }

    /// Get the URI of the list of all objects, to which a new object is
    /// posted
    pub fn uri_list(self) -> (r: String)
        ensures
            r@ == "/iris/api/"@ + self.name_text(),
    {
        let mut uri = String::from_str("/iris/api/");
        uri.append(self.rname());
        uri
    }

    /// Get the URI of an object
    pub fn uri_name(self, name: &str) -> (r: String)
        ensures
            r@ == self.uri_text(name@),
    {
        let mut uri = String::from_str("/iris/api/");
        uri.append(self.rname());
        uri.append("/");
        uri.append(percent_encode(name).as_str());
        uri
    }

    /// Lookup resource symbol
    pub fn symbol(self) -> (r: &'static str)
        ensures
            r@ == first_word(self.display_text()),
    {
        broadcast use vstd::string::group_string_axioms;

        let dname = self.dname();
        let len = dname.unicode_len();
        let mut n: usize = 0;
        for c in it: dname.chars()
            invariant
                it.seq() == dname@,
                dname@ == self.display_text(),
                len == dname@.len(),
                n == it.index(),
                forall|i: int| 0 <= i < n ==> dname@[i] != ' ',
        {
            if c == ' ' {
                proof {
                    lemma_first_space(dname@, n as int);
                    assert(dname@.subrange(0, n as int) =~= dname@.take(n as int));
                }
                return dname.substring_char(0, n);
            }
            n += 1;
        }
        proof {
            lemma_first_space(dname@, n as int);
            assert(dname@.take(n as int) =~= dname@);
        }
        dname
    }

    /// Check if a resource has a Status view
    pub fn has_status(self) -> (r: bool)
        ensures
            r == self.status_view(),
    {
        matches!(
            self,
            Self::Alarm | Self::Beacon | Self::Camera | Self::CommLink | Self::Controller
                | Self::GeoLoc | Self::LaneMarking | Self::RampMeter | Self::WeatherSensor
        )
    }

    /// What to fetch for a card in a view, and the frame to put around
    /// it. A view without a frame of its own is shown as the Edit view,
    /// and so is the Status view of a resource type that has none.
    pub fn card_request(self, view: View) -> (r: CardRequest)
        ensures
            r == match view {
                View::CreateCompact => CardRequest::CreateCompact,
                View::Create => CardRequest::Create,
                View::Compact => CardRequest::Compact,
                View::Location => CardRequest::Location,
                View::Status => if self.status_view() {
                    CardRequest::Status
                } else {
                    CardRequest::Edit
                },
                _ => CardRequest::Edit,
            },
    {
        match view {
            View::CreateCompact => CardRequest::CreateCompact,
            View::Create => CardRequest::Create,
            View::Compact => CardRequest::Compact,
            View::Location => CardRequest::Location,
            View::Status => if self.has_status() {
                CardRequest::Status
            } else {
                CardRequest::Edit
            },
            _ => CardRequest::Edit,
        }
    }

    /// Where the name of the location of an object of the resource type
    /// comes from.
    pub fn geo_loc_source(self) -> (r: GeoLocSource)
        ensures
            r == match self {
                Self::Beacon | Self::Camera | Self::Controller | Self::LaneMarking
                | Self::RampMeter | Self::WeatherSensor => GeoLocSource::Primary,
                Self::GeoLoc => GeoLocSource::Own,
                _ => GeoLocSource::Absent,
            },
    {
        match self {
            Self::Beacon | Self::Camera | Self::Controller | Self::LaneMarking | Self::RampMeter
            | Self::WeatherSensor => GeoLocSource::Primary,
            Self::GeoLoc => GeoLocSource::Own,
            _ => GeoLocSource::Absent,
        }
    }
}

impl View {
    /// Is the view compact?
    pub fn is_compact(self) -> (r: bool)
        ensures
            r == (self is Compact || self is CreateCompact),
    {
        matches!(self, View::Compact | View::CreateCompact)
    }

    /// Is the view a create view?
    pub fn is_create(self) -> (r: bool)
        ensures
            r == (self is Create || self is CreateCompact),
    {
        matches!(self, View::Create | View::CreateCompact)
    }

    /// Get compact view
    pub fn compact(self) -> (r: Self)
        ensures
            r == if self is Create || self is CreateCompact {
                View::CreateCompact
            } else {
                View::Compact
            },
    {
        if self.is_create() {
            View::CreateCompact
        } else {
            View::Compact
        }
    }
}

/// The Status frame around a status view: the display name of the
/// resource type, the object's name escaped, and a button that closes
/// the card.
pub open spec fn card_status_html(dname: Seq<char>, name: Seq<char>, status: Seq<char>) -> Seq<char> {
    "<div class='row'><span class='title'>"@
        + dname
        + "</span><span class='title'>Status</span><span class='ob_name'>"@
        + escaped(name)
        + "</span><button id='ob_close' type='button'>X</button></div>"@
        + status
}

/// The Create frame around a create view.
pub open spec fn card_create_html(dname: Seq<char>, create: Seq<char>) -> Seq<char> {
    "<div class='row'><span class='title'>"@
        + dname
        + "</span><span class='title'>Create</span><span class='ob_name'>🆕</span>\
            <button id='ob_close' type='button'>X</button></div>"@
        + create
        + "\n        <div class='row'><span></span><button id='ob_save' type='button'>🖍️ Save</button></div>"@
}

/// The Edit frame around an edit view: the display name of the resource
/// type, the object's name escaped, and buttons that close the card,
/// delete the object and save it.
pub open spec fn card_edit_html(dname: Seq<char>, name: Seq<char>, edit: Seq<char>) -> Seq<char> {
    "<div class='row'><span class='title'>"@
        + dname
        + "</span><span class='title'>Edit</span><span class='ob_name'>"@
        + escaped(name)
        + "</span><button id='ob_close' type='button'>X</button></div>"@
        + edit
        + "<div class='row'><span></span>\
            <button id='ob_delete' type='button'>🗑️ Delete</button>\
            <button id='ob_save' type='button'>🖍️ Save</button></div>"@
}

/// The Create view of an object that has nothing but a name.
pub open spec fn create_html(name: Seq<char>) -> Seq<char> {
    "<div class='row'><label for='create_name'>Name</label>\
        <input id='create_name' maxlength='24' size='24' value='"@
        + escaped(name)
        + "'/></div>"@
}

/// The list item of the "Create" card: its id is the name of the resource
/// type and `_`, and it carries the next available name.
pub open spec fn create_item_html(rname: Seq<char>, next_name: Seq<char>) -> Seq<char> {
    "<li id='"@
        + rname
        + "_' name='"@
        + next_name
        + "' class='card'><span class='create'>Create 🆕</span></li>"@
}

/// The opening of the list item of an object.
pub open spec fn item_open_html(rname: Seq<char>, name: Seq<char>) -> Seq<char> {
    "<li id='"@ + rname + "_"@ + escaped(name) + "' name='"@ + escaped(name) + "' class='card'>"@
}

impl Resource {
    /// Build a status card
    pub fn html_card_status(self, name: &str, status: &str) -> (r: String)
        ensures
            r@ == card_status_html(self.display_text(), name@, status@),
    {
        let mut html = String::from_str("<div class='row'><span class='title'>");
        html.append(self.dname());
        html.append("</span><span class='title'>Status</span><span class='ob_name'>");
        html.append(encode(name).as_str());
        html.append("</span><button id='ob_close' type='button'>X</button></div>");
        html.append(status);
        html
    }
}

/// Build a create card
pub fn html_card_create(dname: &'static str, create: &str) -> (r: String)
    ensures
        r@ == card_create_html(dname@, create@),
{
    let mut html = String::from_str("<div class='row'><span class='title'>");
    html.append(dname);
    html.append("</span><span class='title'>Create</span><span class='ob_name'>🆕</span>\
        <button id='ob_close' type='button'>X</button></div>");
    html.append(create);
    html.append("\n        <div class='row'><span></span><button id='ob_save' type='button'>🖍️ Save</button></div>");
    html
}

/// Build an edit card
pub fn html_card_edit(dname: &'static str, name: &str, edit: &str) -> (r: String)
    ensures
        r@ == card_edit_html(dname@, name@, edit@),
{
    let mut html = String::from_str("<div class='row'><span class='title'>");
    html.append(dname);
    html.append("</span><span class='title'>Edit</span><span class='ob_name'>");
    html.append(encode(name).as_str());
    html.append("</span><button id='ob_close' type='button'>X</button></div>");
    html.append(edit);
    html.append("<div class='row'><span></span>\
        <button id='ob_delete' type='button'>🗑️ Delete</button>\
        <button id='ob_save' type='button'>🖍️ Save</button></div>");
    html
}

/// Convert to Create HTML
pub fn to_html_create(name: &str) -> (r: String)
    ensures
        r@ == create_html(name@),
{
    let mut html = String::from_str("<div class='row'><label for='create_name'>Name</label>\
        <input id='create_name' maxlength='24' size='24' value='");
    html.append(encode(name).as_str());
    html.append("'/></div>");
    html
}

/// The list item of the "Create" card.
pub fn create_item(rname: &str, next_name: &str) -> (r: String)
    ensures
        r@ == create_item_html(rname@, next_name@),
{
    let mut item = String::from_str("<li id='");
    item.append(rname);
    item.append("_' name='");
    item.append(next_name);
    item.append("' class='card'><span class='create'>Create 🆕</span></li>");
    item
}

/// The opening of the list item of an object.
pub fn item_open(rname: &str, name: &str) -> (r: String)
    ensures
        r@ == item_open_html(rname@, name@),
{
    let shown = encode(name);
    let mut item = String::from_str("<li id='");
    item.append(rname);
    item.append("_");
    item.append(shown.as_str());
    item.append("' name='");
    item.append(shown.as_str());
    item.append("' class='card'>");
    item
}

/// The attribute of a card that is disabled, and nothing for one that is
/// enabled.
pub open spec fn disabled_text(enabled: bool) -> Seq<char> {
    if enabled {
        ""@
    } else {
        " class='disabled'"@
    }
}

/// Get attribute for disabled cards
pub fn disabled_attr(enabled: bool) -> (r: &'static str)
    ensures
        r@ == disabled_text(enabled),
{
    if enabled {
        ""
    } else {
        " class='disabled'"
    }
}

/// The compact view of a card is compact whatever it is taken of, and the
/// compact view of a view is a create view exactly where the view is.
pub proof fn law_compact_view(view: View)
    ensures
        ({
            let c = if view is Create || view is CreateCompact {
                View::CreateCompact
            } else {
                View::Compact
            };
            (c is Compact || c is CreateCompact) && ((c is Create || c is CreateCompact) == (view
                is Create || view is CreateCompact))
        }),
{
}

} // verus!
