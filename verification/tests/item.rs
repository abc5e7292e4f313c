use honeybee::item::{ItemState, ItemStates};

const ALL: [ItemState; 9] = [
    ItemState::Available,
    ItemState::Deployed,
    ItemState::Planned,
    ItemState::External,
    ItemState::Dedicated,
    ItemState::Fault,
    ItemState::Offline,
    ItemState::Disabled,
    ItemState::Unknown,
];

#[test]
fn codes_lead_back_to_their_states() {
    for state in ALL {
        assert_eq!(ItemState::from_code(state.code()), Some(state));
        assert_eq!(state.to_string(), state.code());
    }
    assert_eq!(ItemState::from_code("🔹"), Some(ItemState::Available));
    assert_eq!(ItemState::from_code("⚠️"), Some(ItemState::Fault));
    assert_eq!(ItemState::from_code("⚠"), None);
    assert_eq!(ItemState::from_code(""), None);
    assert_eq!(ItemState::from_code("available"), None);
}

#[test]
fn codes_and_descriptions() {
    assert_eq!(ItemState::Available.code(), "🔹");
    assert_eq!(ItemState::Deployed.code(), "🔶");
    assert_eq!(ItemState::Planned.code(), "🕗");
    assert_eq!(ItemState::External.code(), "👽");
    assert_eq!(ItemState::Dedicated.code(), "🎯");
    assert_eq!(ItemState::Fault.code(), "⚠️");
    assert_eq!(ItemState::Offline.code(), "🔌");
    assert_eq!(ItemState::Disabled.code(), "🔻");
    assert_eq!(ItemState::Unknown.code(), "❓");
    let descriptions: Vec<&str> = ALL.iter().map(|s| s.description()).collect();
    assert_eq!(
        descriptions,
        vec![
            "available", "deployed", "planned", "external", "dedicated", "fault", "offline",
            "disabled", "unknown"
        ]
    );
}

#[test]
fn state_matches_code_or_description() {
    assert!(ItemState::Offline.is_match("off"));
    assert!(ItemState::Offline.is_match("🔌"));
    assert!(ItemState::Offline.is_match(""));
    assert!(!ItemState::Offline.is_match("online"));
    assert!(!ItemState::Offline.is_match("Off"));
    assert!(ItemState::Planned.is_match("planned"));
    assert!(!ItemState::Planned.is_match("planned "));
}

#[test]
fn states_hold_each_state_once() {
    let states = ItemStates::of(ItemState::Fault)
        .with(ItemState::Offline)
        .with(ItemState::Fault)
        .with(ItemState::Available)
        .with(ItemState::Offline);
    assert_eq!(
        states.iter(),
        &vec![ItemState::Fault, ItemState::Offline, ItemState::Available]
    );
    assert!(states.contains(ItemState::Offline));
    assert!(!states.contains(ItemState::Planned));
    assert!(states.is_match("avail"));
    assert!(states.is_match("⚠"));
    assert!(!states.is_match("planned"));
    assert_eq!(states.description(), "⚠️ fault 🔌 offline 🔹 available");
    assert_eq!(states.to_string(), "⚠️🔌🔹");
}

#[test]
fn no_states() {
    let states = ItemStates::default();
    assert!(states.iter().is_empty());
    assert!(!states.is_match(""));
    assert_eq!(states.description(), "");
    assert_eq!(states.to_string(), "");
    assert_eq!(ItemStates::of(ItemState::Unknown).description(), "❓ unknown");
}
