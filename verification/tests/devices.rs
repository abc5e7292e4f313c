use honeybee::alarm::Alarm;
use honeybee::card::View;
use honeybee::dms::Dms;
use honeybee::item::ItemState;
use honeybee::json::{create_value, CardError};
use honeybee::search::{build_list, Card, DeviceAnc, Search};
use honeybee::videomonitor::VideoMonitor;
use honeybee::card::Resource;

fn anc(item_state: ItemState) -> DeviceAnc {
    DeviceAnc {
        item_state,
        controller_button: "<button>ctl</button>".to_string(),
        controller_loc_html: "<div>loc</div>".to_string(),
    }
}

fn alarm() -> Alarm {
    Alarm {
        name: "A<1>".to_string(),
        description: "Door & Gate".to_string(),
        controller: Some("ctl_1".to_string()),
        state: true,
        pin: Some(12),
        trigger_time: None,
    }
}

fn dms() -> Dms {
    Dms {
        name: "V94W01".to_string(),
        location: Some("I-94 @ Snelling <WB>".to_string()),
        controller: None,
        geo_loc: Some("loc_1".to_string()),
        pin: None,
        msg_current: Some("msg_abc".to_string()),
    }
}

fn monitor() -> VideoMonitor {
    VideoMonitor { name: "Mon 7".to_string(), mon_num: 1207, controller: Some("c".to_string()), pin: Some(3) }
}

#[test]
fn alarm_states() {
    let mut a = alarm();
    assert_eq!(a.state(false), "😧");
    assert_eq!(a.state(true), "triggered 😧");
    a.state = false;
    assert_eq!(a.state(false), "👍");
    assert_eq!(a.state(true), "clear 👍");
    a.controller = None;
    assert_eq!(a.state(false), "❓");
    assert_eq!(a.state(true), "unknown ❓");
    a.state = true;
    assert_eq!(a.state(false), "❓");
    assert_eq!(a.state(true), "unknown ❓");
}

#[test]
fn alarm_views() {
    let a = alarm();
    assert_eq!(
        a.to_html_compact(&anc(ItemState::Unknown)),
        "<span>😧</span><span>Door &amp; Gate</span><span class='ob_name'>A&lt;1&gt;</span>"
    );
    assert_eq!(
        a.to_html_status(&anc(ItemState::Unknown)),
        "<div class='row'><span class='info'>Door &amp; Gate</span>\
         <span class='info'>triggered 😧</span></div>\
         <div class='row'><span>Triggered</span><span class='info'>-</span></div>"
    );
    assert_eq!(
        a.to_html_edit(&anc(ItemState::Unknown)),
        "<div>loc</div><div class='row'><label for='edit_desc'>Description</label>\
         <input id='edit_desc' maxlength='24' size='24' value='Door &amp; Gate'/></div>\
         <div class='row'><label for='edit_ctrl'>Controller</label>\
         <input id='edit_ctrl' maxlength='20' size='20' value='ctl_1'/></div>\
         <div class='row'><label for='edit_pin'>Pin</label>\
         <input id='edit_pin' type='number' min='1' max='104' size='8' value='12'/></div>"
    );
    let mut a = a.with_name("B2");
    a.controller = None;
    a.trigger_time = Some("2022-05-01 10:00".to_string());
    a.pin = None;
    assert_eq!(a.name(), "B2");
    assert_eq!(a.controller(), None);
    assert_eq!(
        a.to_html_compact(&anc(ItemState::Unknown)),
        "<span>❓</span><span class='disabled'>Door &amp; Gate</span>\
         <span class='ob_name'>B2</span>"
    );
    assert!(a.to_html_status(&anc(ItemState::Unknown)).ends_with(
        "<span>Triggered</span><span class='info'>2022-05-01 10:00</span></div>"
    ));
    assert!(a.to_html_edit(&anc(ItemState::Unknown)).ends_with("size='8' value=''/></div>"));
}

#[test]
fn alarm_search() {
    let a = alarm();
    let anc = anc(ItemState::Unknown);
    assert!(a.is_match("door", &anc));
    assert!(a.is_match("a<1", &anc));
    assert!(a.is_match("trigger", &anc));
    assert!(a.is_match("😧", &anc));
    assert!(!a.is_match("Door", &anc));
    assert!(!a.is_match("clear", &anc));
    assert!(!a.is_match("ctl_1", &anc));
}

#[test]
fn alarm_changed_fields() {
    let a = alarm();
    let same = a.changed_fields(
        &Some("Door & Gate".to_string()),
        &Some("ctl_1".to_string()),
        Some(12),
    );
    assert_eq!(same, "{}");
    assert_eq!(a.changed_fields(&None, &Some("ctl_1".to_string()), Some(12)), "{}");
    let all = a.changed_fields(&Some("Gate".to_string()), &Some("ctl_2".to_string()), Some(13));
    assert_eq!(all, r#"{"controller":"ctl_2","description":"Gate","pin":13}"#);
    let cleared = a.changed_fields(&None, &Some("".to_string()), None);
    assert_eq!(cleared, r#"{"controller":null,"pin":null}"#);
    assert_eq!(a.changed_fields(&Some("".to_string()), &None, Some(12)), r#"{"controller":null,"description":""}"#);
    let quoted = a.changed_fields(&Some("say \"hi\"".to_string()), &Some("ctl_1".to_string()), Some(12));
    assert_eq!(quoted, r#"{"description":"say \"hi\""}"#);
}

#[test]
fn dms_views() {
    let d = dms();
    let anc = anc(ItemState::Offline);
    assert_eq!(
        d.to_html_compact(&anc),
        "<div class='ob_name end'>🔌 V94W01</div>\
         <div class='info fill class='disabled''>I-94 @ Snelling &lt;WB&gt;</div>"
    );
    assert_eq!(
        d.to_html_status(&anc, false),
        "<div class='row'><span class='info fill'>I-94 @ Snelling &lt;WB&gt;</span></div>\
         <img class='message' src='/iris/img/msg_abc.gif'/>"
    );
    assert_eq!(
        d.to_html_status(&anc, true),
        "<div class='row'><span class='info fill'>I-94 @ Snelling &lt;WB&gt;</span></div>\
         <img class='message' src='/iris/img/msg_abc.gif'/>\
         <div class='row'><button>ctl</button>\
         <button id='ob_loc' type='button'>🗺️ Location</button>\
         <button id='ob_edit' type='button'>📝 Edit</button></div>"
    );
    assert_eq!(
        d.to_html_edit(),
        "<div class='row'><label for='controller'>Controller</label>\
         <input id='controller' maxlength='20' size='20' value=''/></div>\
         <div class='row'><label for='pin'>Pin</label>\
         <input id='pin' type='number' min='1' max='104' size='8' value=''/></div>"
    );
    assert_eq!(d.to_html(View::Compact, &anc, true), d.to_html_compact(&anc));
    assert_eq!(d.to_html(View::Status, &anc, true), d.to_html_status(&anc, true));
    assert_eq!(d.to_html(View::Edit, &anc, true), d.to_html_edit());
    assert_eq!(
        d.to_html(View::Create, &anc, false),
        "<div class='row'><label for='create_name'>Name</label>\
         <input id='create_name' maxlength='24' size='24' value='V94W01'/></div>"
    );
    assert_eq!(d.geo_loc(), Some("loc_1"));
    assert_eq!(d.controller(), None);
}

#[test]
fn dms_location_is_cut_to_64_characters() {
    let mut d = dms();
    d.msg_current = None;
    d.location = Some("<".repeat(70));
    assert_eq!(
        d.to_html_status(&anc(ItemState::Available), false),
        format!(
            "<div class='row'><span class='info fill'>{}</span></div>",
            "&lt;".repeat(64)
        )
    );
    d.location = None;
    assert_eq!(
        d.to_html_status(&anc(ItemState::Available), false),
        "<div class='row'><span class='info fill'></span></div>"
    );
}

#[test]
fn dms_search_and_changes() {
    let d = dms();
    let a = anc(ItemState::Offline);
    assert!(d.is_match("v94", &a));
    assert!(d.is_match("snelling", &a));
    assert!(d.is_match("🔌", &a));
    assert!(!d.is_match("offline", &a));
    assert!(!d.is_match("msg_abc", &a));
    let mut bare = dms().with_name("X");
    bare.location = None;
    assert!(!bare.is_match("snelling", &a));
    assert!(bare.is_match("x", &a));
    assert_eq!(d.changed_fields(&None, None), "{}");
    assert_eq!(
        d.changed_fields(&Some("ctl_9".to_string()), Some(4)),
        r#"{"controller":"ctl_9","pin":4}"#
    );
}

#[test]
fn video_monitor_views() {
    let m = monitor();
    let a = anc(ItemState::Available);
    assert_eq!(
        m.to_html_compact(&a),
        "<div class='ob_name end'>Mon 7 🔹</div><div class='info fill'>1207</div>"
    );
    assert_eq!(
        m.to_html_status(&a, false),
        "<div class='row'><span class='info'>1207</span></div>"
    );
    assert_eq!(
        m.to_html_status(&a, true),
        "<div class='row'><span class='info'>1207</span></div>\
         <div class='row'><button>ctl</button>\
         <button id='ob_edit' type='button'>📝 Edit</button></div>"
    );
    assert_eq!(
        m.to_html_edit(),
        "<div class='row'><label for='controller'>Controller</label>\
         <input id='controller' maxlength='20' size='20' value='c'></div>\
         <div class='row'><label for='pin'>Pin</label>\
         <input id='pin' type='number' min='1' max='104' size='8' value='3'></div>"
    );
    assert_eq!(m.to_html(View::Status, &a, true), m.to_html_status(&a, true));
    assert_eq!(m.to_html(View::Compact, &a, true), m.to_html_compact(&a));
    assert_eq!(m.to_html(View::Edit, &a, true), m.to_html_edit());
    assert!(m.to_html(View::Create, &a, true).contains("value='Mon 7'"));
}

#[test]
fn video_monitor_search_and_changes() {
    let m = monitor();
    let a = anc(ItemState::Available);
    assert!(m.is_match("mon 7", &a));
    assert!(m.is_match("120", &a));
    assert!(m.is_match("avail", &a));
    assert!(m.is_match("🔹", &a));
    assert!(!m.is_match("1208", &a));
    assert!(!m.is_match("Mon", &a));
    assert_eq!(m.controller(), Some("c"));
    assert_eq!(m.changed_fields(&Some("c".to_string()), Some(3)), "{}");
    assert_eq!(m.changed_fields(&None, Some(3)), r#"{"controller":null}"#);
    assert_eq!(m.changed_fields(&Some("c".to_string()), Some(30)), r#"{"pin":30}"#);
    assert_eq!(m.with_name("N").name, "N");
}

#[test]
fn objects_are_shown_by_their_escaped_names() {
    assert_eq!(alarm().to_string(), "A&lt;1&gt;");
    assert_eq!(dms().to_string(), "V94W01");
    assert_eq!(monitor().with_name("a\"b").to_string(), "a&quot;b");
}

#[test]
fn new_object_needs_a_name() {
    assert_eq!(create_value(Some("lnk_1".to_string())), Ok(r#"{"name":"lnk_1"}"#.to_string()));
    assert_eq!(create_value(Some("".to_string())), Err(CardError::NameMissing));
    assert_eq!(create_value(None), Err(CardError::NameMissing));
}

#[test]
fn search_terms() {
    assert_eq!(Search::new(""), Search::Empty);
    assert_eq!(Search::new("Door Gate"), Search::Normal("door gate".to_string()));
    assert_eq!(Search::new("\"Door Gate\""), Search::Exact("door gate".to_string()));
    assert_eq!(Search::new("\"\"Door\" Gate\"\"\""), Search::Exact("door\" gate".to_string()));
    assert_eq!(Search::new("\""), Search::Exact("".to_string()));
    assert_eq!(Search::new("\"\""), Search::Exact("".to_string()));
    assert_eq!(Search::new("\"open"), Search::Normal("\"open".to_string()));
    assert_eq!(Search::new("ÉCOLE"), Search::Normal("école".to_string()));
}

#[test]
fn search_matches_every_word_or_the_whole() {
    let a = alarm();
    let anc = anc(ItemState::Unknown);
    assert!(Search::new("").is_match(&a, &anc));
    assert!(Search::new("gate door").is_match(&a, &anc));
    assert!(Search::new("GATE trig").is_match(&a, &anc));
    assert!(!Search::new("gate window").is_match(&a, &anc));
    assert!(Search::new("gate ").is_match(&a, &anc));
    assert!(Search::new("  ").is_match(&a, &anc));
    assert!(Search::new("\"door & gate\"").is_match(&a, &anc));
    assert!(!Search::new("\"gate door\"").is_match(&a, &anc));
    assert!(!Search::new("\"door  gate\"").is_match(&a, &anc));
}

#[test]
fn card_list() {
    let anc = anc(ItemState::Unknown);
    let mut second = alarm().with_name("B2");
    second.description = "Window".to_string();
    second.controller = None;
    let obs = vec![alarm(), second];
    let create = "<li id='alarm_' name='A3' class='card'>\
                  <span class='create'>Create 🆕</span></li>";
    let first = "<li id='alarm_A&lt;1&gt;' name='A&lt;1&gt;' class='card'>\
                 <span>😧</span><span>Door &amp; Gate</span>\
                 <span class='ob_name'>A&lt;1&gt;</span></li>";
    let other = "<li id='alarm_B2' name='B2' class='card'>\
                 <span>❓</span><span class='disabled'>Window</span>\
                 <span class='ob_name'>B2</span></li>";
    assert_eq!(
        build_list(Resource::Alarm, &obs, "", &anc, "A3"),
        format!("<ul class='cards'>{create}{first}{other}</ul>")
    );
    assert_eq!(
        build_list(Resource::Alarm, &obs, "WINDOW", &anc, "A3"),
        format!("<ul class='cards'>{create}{other}</ul>")
    );
    assert_eq!(
        build_list(Resource::Alarm, &obs, "nothing", &anc, "A3"),
        format!("<ul class='cards'>{create}</ul>")
    );
    assert_eq!(
        build_list(Resource::Alarm, &Vec::<Alarm>::new(), "", &anc, ""),
        "<ul class='cards'><li id='alarm_' name='' class='card'>\
         <span class='create'>Create 🆕</span></li></ul>"
    );
}
