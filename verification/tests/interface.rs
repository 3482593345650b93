use opentitan_backend::text::str_eq;
use opentitan_backend::Interface;

const ALL: [(Interface, &str); 11] = [
    (Interface::Empty, ""),
    (Interface::Proxy, "proxy"),
    (Interface::Verilator, "verilator"),
    (Interface::Ti50Emulator, "ti50emulator"),
    (Interface::Ultradebug, "ultradebug"),
    (Interface::Hyper310, "hyper310"),
    (Interface::Hyperdebug, "hyperdebug"),
    (Interface::HyperdebugDfu, "hyperdebug_dfu"),
    (Interface::C2d2, "c2d2"),
    (Interface::Ti50, "ti50"),
    (Interface::Cw310, "cw310"),
];

#[test]
fn from_name_recognises_every_interface() {
    for (interface, name) in ALL {
        assert_eq!(Interface::from_name(name), Some(interface));
    }
}

#[test]
fn as_str_gives_the_requested_name() {
    for (interface, name) in ALL {
        assert_eq!(interface.as_str(), name);
        assert_eq!(Interface::from_name(interface.as_str()), Some(interface));
    }
}

#[test]
fn from_name_is_exact_and_case_sensitive() {
    for name in [
        "bogus", "Proxy", "PROXY", "proxy ", " proxy", "prox", "proxyy", "hyperdebug_", "hyper",
        "hyperdebug_DFU", "cw-310", "CW310", "ti5", "ti500", "c2d", "\0", " ", "verilator\n",
    ] {
        assert_eq!(Interface::from_name(name), None, "{:?}", name);
    }
}

#[test]
fn default_profile_table() {
    let expected = [
        (Interface::Empty, None),
        (Interface::Proxy, None),
        (Interface::Verilator, Some("/__builtin__/opentitan_verilator.json")),
        (Interface::Ti50Emulator, Some("/__builtin__/ti50emulator.json")),
        (Interface::Ultradebug, Some("/__builtin__/opentitan_ultradebug.json")),
        (Interface::Hyper310, Some("/__builtin__/hyperdebug_cw310.json")),
        (Interface::Hyperdebug, None),
        (Interface::HyperdebugDfu, None),
        (Interface::C2d2, Some("/__builtin__/h1dx_devboard.json")),
        (Interface::Ti50, None),
        (Interface::Cw310, Some("/__builtin__/opentitan_cw310.json")),
    ];
    for (interface, profile) in expected {
        assert_eq!(interface.default_profile(), profile);
    }
}

#[test]
fn profiles_live_under_the_reserved_prefix() {
    for (interface, _) in ALL {
        if let Some(profile) = interface.default_profile() {
            assert!(profile.starts_with("/__builtin__/"));
        }
    }
}

#[test]
fn str_eq_compares_exactly() {
    assert!(str_eq("", ""));
    assert!(str_eq("cw310", "cw310"));
    assert!(str_eq("grüße", "grüße"));
    assert!(!str_eq("", " "));
    assert!(!str_eq("cw310", "cw31"));
    assert!(!str_eq("cw31", "cw310"));
    assert!(!str_eq("cw310", "cw311"));
    assert!(!str_eq("cw310", "Cw310"));
    assert!(!str_eq("é", "e"));
    assert!(!str_eq("é", "e\u{301}"));
}
