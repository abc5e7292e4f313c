use honeybee::card::{
    create_item, disabled_attr, html_card_create, html_card_edit, item_open, to_html_create,
    CardRequest, GeoLocSource, Resource, View, CREATE_COMPACT, EDIT_BUTTON, LOC_BUTTON, NAME,
    TITLE,
};

const ALL: [Resource; 16] = [
    Resource::Alarm,
    Resource::Beacon,
    Resource::CabinetStyle,
    Resource::Camera,
    Resource::CommConfig,
    Resource::CommLink,
    Resource::Controller,
    Resource::GeoLoc,
    Resource::LaneMarking,
    Resource::Modem,
    Resource::Permission,
    Resource::RampMeter,
    Resource::Role,
    Resource::User,
    Resource::WeatherSensor,
    Resource::Unknown,
];

#[test]
fn names_lead_back_to_their_resources() {
    for res in ALL {
        assert_eq!(Resource::from_name(res.rname()), res);
    }
    assert_eq!(Resource::from_name("comm_link"), Resource::CommLink);
    assert_eq!(Resource::from_name("Comm_link"), Resource::Unknown);
    assert_eq!(Resource::from_name("dms"), Resource::Unknown);
    assert_eq!(Resource::from_name(""), Resource::Unknown);
    assert_eq!(Resource::Unknown.rname(), "");
    assert_eq!(Resource::WeatherSensor.rname(), "weather_sensor");
}

#[test]
fn symbol_is_the_first_word_of_the_display_name() {
    assert_eq!(Resource::Alarm.dname(), "📢 Alarm");
    assert_eq!(Resource::Alarm.symbol(), "📢");
    assert_eq!(Resource::CabinetStyle.dname(), "🗄️ Cabinet Style");
    assert_eq!(Resource::CabinetStyle.symbol(), "🗄️");
    assert_eq!(Resource::LaneMarking.symbol(), "⛙");
    assert_eq!(Resource::Unknown.dname(), "❓ Unknown");
    assert_eq!(Resource::Unknown.symbol(), "❓");
    for res in ALL {
        let symbol = res.dname().split_whitespace().next().unwrap();
        assert_eq!(res.symbol(), symbol);
    }
}

#[test]
fn addresses() {
    assert_eq!(Resource::Alarm.uri_list(), "/iris/api/alarm");
    assert_eq!(Resource::Alarm.uri_name("A1"), "/iris/api/alarm/A1");
    assert_eq!(Resource::CommLink.uri_name("link 1/2"), "/iris/api/comm_link/link%201%2F2");
    assert_eq!(Resource::User.uri_name("é_z"), "/iris/api/user/%C3%A9%5Fz");
    assert_eq!(Resource::Role.uri_name(""), "/iris/api/role/");
    assert_eq!(Resource::Modem.uri_name("~aZ09-"), "/iris/api/modem/%7EaZ09%2D");
}

#[test]
fn status_views() {
    let with: Vec<Resource> = ALL.iter().copied().filter(|r| r.has_status()).collect();
    assert_eq!(
        with,
        vec![
            Resource::Alarm,
            Resource::Beacon,
            Resource::Camera,
            Resource::CommLink,
            Resource::Controller,
            Resource::GeoLoc,
            Resource::LaneMarking,
            Resource::RampMeter,
            Resource::WeatherSensor,
        ]
    );
    assert_eq!(Resource::Alarm.card_request(View::Status), CardRequest::Status);
    assert_eq!(Resource::Modem.card_request(View::Status), CardRequest::Edit);
    assert_eq!(Resource::Modem.card_request(View::Edit), CardRequest::Edit);
    assert_eq!(Resource::Modem.card_request(View::Search), CardRequest::Edit);
    assert_eq!(Resource::Modem.card_request(View::Create), CardRequest::Create);
    assert_eq!(Resource::Modem.card_request(View::CreateCompact), CardRequest::CreateCompact);
    assert_eq!(Resource::Modem.card_request(View::Compact), CardRequest::Compact);
    assert_eq!(Resource::Camera.card_request(View::Location), CardRequest::Location);
}

#[test]
fn locations() {
    assert_eq!(Resource::GeoLoc.geo_loc_source(), GeoLocSource::Own);
    for res in [
        Resource::Beacon,
        Resource::Camera,
        Resource::Controller,
        Resource::LaneMarking,
        Resource::RampMeter,
        Resource::WeatherSensor,
    ] {
        assert_eq!(res.geo_loc_source(), GeoLocSource::Primary);
    }
    for res in [Resource::Alarm, Resource::Modem, Resource::User, Resource::Unknown] {
        assert_eq!(res.geo_loc_source(), GeoLocSource::Absent);
    }
}

#[test]
fn views() {
    assert!(View::Compact.is_compact());
    assert!(View::CreateCompact.is_compact());
    assert!(!View::Create.is_compact());
    assert!(!View::Status.is_compact());
    assert!(View::Create.is_create());
    assert!(View::CreateCompact.is_create());
    assert!(!View::Compact.is_create());
    assert!(!View::Edit.is_create());
    assert_eq!(View::Create.compact(), View::CreateCompact);
    assert_eq!(View::CreateCompact.compact(), View::CreateCompact);
    for view in [View::Compact, View::Status, View::Edit, View::Location, View::Search] {
        assert_eq!(view.compact(), View::Compact);
    }
}

#[test]
fn disabled_attribute() {
    assert_eq!(disabled_attr(true), "");
    assert_eq!(disabled_attr(false), " class='disabled'");
}

#[test]
fn card_frames() {
    assert_eq!(
        Resource::Beacon.html_card_status("B<1>", "<p>on</p>"),
        "<div class='row'><span class='title'>🔆 Beacon</span>\
         <span class='title'>Status</span><span class='ob_name'>B&lt;1&gt;</span>\
         <button id='ob_close' type='button'>X</button></div><p>on</p>"
    );
    assert_eq!(
        html_card_create("💪 Role", "<i>new</i>"),
        "<div class='row'><span class='title'>💪 Role</span>\
         <span class='title'>Create</span><span class='ob_name'>🆕</span>\
         <button id='ob_close' type='button'>X</button></div><i>new</i>\n        \
         <div class='row'><span></span>\
         <button id='ob_save' type='button'>🖍️ Save</button></div>"
    );
    assert_eq!(
        html_card_edit("💪 Role", "R&D", "<i>edit</i>"),
        "<div class='row'><span class='title'>💪 Role</span>\
         <span class='title'>Edit</span><span class='ob_name'>R&amp;D</span>\
         <button id='ob_close' type='button'>X</button></div><i>edit</i>\
         <div class='row'><span></span>\
         <button id='ob_delete' type='button'>🗑️ Delete</button>\
         <button id='ob_save' type='button'>🖍️ Save</button></div>"
    );
    assert_eq!(
        to_html_create("it's"),
        "<div class='row'><label for='create_name'>Name</label>\
         <input id='create_name' maxlength='24' size='24' value='it&#x27;s'/></div>"
    );
}

#[test]
fn list_items() {
    assert_eq!(
        create_item("modem", "mdm_3"),
        "<li id='modem_' name='mdm_3' class='card'><span class='create'>Create 🆕</span></li>"
    );
    assert_eq!(
        item_open("modem", "m<1>"),
        "<li id='modem_m&lt;1&gt;' name='m&lt;1&gt;' class='card'>"
    );
    assert_eq!(TITLE, "title");
    assert_eq!(NAME, "ob_name");
    assert_eq!(CREATE_COMPACT, "<span class='create'>Create 🆕</span>");
    assert_eq!(LOC_BUTTON, "<button id='ob_loc' type='button'>🗺️ Location</button>");
    assert_eq!(EDIT_BUTTON, "<button id='ob_edit' type='button'>📝 Edit</button>");
}
