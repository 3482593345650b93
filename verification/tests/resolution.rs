use opentitan_backend::{
    begin, create, create_empty_transport, Backend, BackendOpts, Collaborators, ConfigSource,
    ConstructRequest, Cw310Opts, Error, Flavor, Interface, ProxyOpts, Resolution,
    Ti50EmulatorOpts, TransportWrapper, VerilatorOpts,
};

fn options(interface: &str, conf: &[&str]) -> BackendOpts {
    BackendOpts {
        interface: interface.to_string(),
        usb_vid: None,
        usb_pid: None,
        usb_serial: None,
        cw310_opts: Cw310Opts { cw310_uarts: None },
        verilator_opts: VerilatorOpts {
            verilator_bin: String::new(),
            verilator_rom: String::new(),
            verilator_flash: String::new(),
            verilator_otp: String::new(),
            verilator_timeout: 60,
            verilator_args: Vec::new(),
        },
        proxy_opts: ProxyOpts { proxy: None, port: 9900 },
        ti50emulator_opts: Ti50EmulatorOpts {
            instance_prefix: String::new(),
            executable_directory: "ti50".to_string(),
            executable: "host_emulation".to_string(),
        },
        conf: conf.iter().map(|path| path.to_string()).collect(),
    }
}

/// What the collaborators answer: one answer per user file, then the
/// constructor's, then that of the built-in profile.
struct Script {
    config: Vec<Result<(), String>>,
    construct: Result<u32, String>,
    profile: Result<(), String>,
}

fn all_well(files: usize) -> Script {
    Script { config: vec![Ok(()); files], construct: Ok(7), profile: Ok(()) }
}

/// Collaborators that answer from a script and log every call made on them.
struct Recorder {
    calls: Vec<String>,
    requests: Vec<String>,
    config: std::vec::IntoIter<Result<(), String>>,
    construct: Option<Result<u32, String>>,
    profile: Option<Result<(), String>>,
}

impl Recorder {
    fn new(script: Script) -> Recorder {
        Recorder {
            calls: Vec::new(),
            requests: Vec::new(),
            config: script.config.into_iter(),
            construct: Some(script.construct),
            profile: Some(script.profile),
        }
    }
}

impl Collaborators for Recorder {
    type Backend = u32;
    type Failure = String;

    fn apply_config(&mut self, source: &ConfigSource) -> Result<(), String> {
        self.calls.push(format!("apply {}", source.path()));
        match source {
            ConfigSource::UserFile(_) => self.config.next().expect("an answer for every user file"),
            ConfigSource::Builtin(_) => self.profile.take().expect("one profile call at most"),
        }
    }

    fn construct(&mut self, request: ConstructRequest<'_>) -> Result<u32, String> {
        self.calls.push(format!("construct {}", request.interface().as_str()));
        self.requests.push(format!("{:?}", request));
        self.construct.take().expect("one constructor call at most")
    }
}

/// Creates the backend against scripted collaborators and returns the log of
/// the calls made with the result.
fn drive(
    opts: &BackendOpts,
    script: Script,
) -> (Vec<String>, Result<TransportWrapper<u32>, Error<String>>) {
    let mut recorder = Recorder::new(script);
    let result = create(opts, &mut recorder);
    (recorder.calls, result)
}

/// Takes a resolution through its steps by hand, with the same log.
fn step_through(
    opts: &BackendOpts,
    script: Script,
) -> (Vec<String>, Result<TransportWrapper<u32>, Error<String>>) {
    let mut calls = Vec::new();
    let mut config = script.config.into_iter();
    let mut construct = Some(script.construct);
    let mut profile = Some(script.profile);
    let mut at: Resolution<u32, String> = begin(opts);
    loop {
        at = match at {
            Resolution::ApplyConfig(step) => {
                calls.push(format!("apply {}", step.path()));
                step.resume(config.next().expect("an answer for every user file"))
            }
            Resolution::Construct(step) => {
                calls.push(format!("construct {}", step.interface().as_str()));
                step.resume(construct.take().expect("one constructor call at most"))
            }
            Resolution::ApplyDefault(step) => {
                calls.push(format!("apply {}", step.profile()));
                step.resume(profile.take().expect("one profile call at most"))
            }
            Resolution::Done(result) => return (calls, result),
        }
    }
}

fn user(path: &str) -> ConfigSource {
    ConfigSource::UserFile(path.to_string())
}

fn handle(
    interface: &str,
    backend: Backend<u32>,
    layers: Vec<ConfigSource>,
) -> TransportWrapper<u32> {
    TransportWrapper { interface: interface.to_string(), backend, layers }
}

#[test]
fn empty_interface_yields_the_stub() {
    let opts = options("", &[]);
    let first: Resolution<u32, String> = begin(&opts);
    assert!(matches!(first, Resolution::Done(Ok(_))));
    let (calls, result) = drive(&opts, all_well(0));
    assert_eq!(calls, Vec::<String>::new());
    assert_eq!(result, Ok(handle("", Backend::Empty, vec![])));
}

#[test]
fn ultradebug_gets_its_builtin_profile() {
    let opts = options("ultradebug", &[]);
    let (calls, result) = drive(&opts, all_well(0));
    assert_eq!(
        calls,
        vec![
            "construct ultradebug".to_string(),
            "apply /__builtin__/opentitan_ultradebug.json".to_string(),
        ]
    );
    assert_eq!(
        result,
        Ok(handle(
            "ultradebug",
            Backend::Device(7),
            vec![ConfigSource::Builtin("/__builtin__/opentitan_ultradebug.json")],
        ))
    );
}

#[test]
fn hyperdebug_has_no_builtin_profile() {
    let opts = options("hyperdebug", &[]);
    let (calls, result) = drive(&opts, all_well(0));
    assert_eq!(calls, vec!["construct hyperdebug".to_string()]);
    assert_eq!(result, Ok(handle("hyperdebug", Backend::Device(7), vec![])));
}

#[test]
fn cw310_with_a_user_file_skips_the_builtin_profile() {
    let opts = options("cw310", &["user.json"]);
    let (calls, result) = drive(&opts, all_well(1));
    assert_eq!(calls, vec!["apply user.json".to_string(), "construct cw310".to_string()]);
    assert_eq!(result, Ok(handle("cw310", Backend::Device(7), vec![user("user.json")])));
}

#[test]
fn bogus_interface_is_unknown() {
    let opts = options("bogus", &[]);
    let first: Resolution<u32, String> = begin(&opts);
    assert!(matches!(first, Resolution::Done(Err(Error::UnknownInterface(_)))));
    let (calls, result) = drive(&opts, all_well(0));
    assert_eq!(calls, Vec::<String>::new());
    assert_eq!(result, Err(Error::UnknownInterface("bogus".to_string())));
}

#[test]
fn unknown_interface_is_found_after_the_user_files() {
    let opts = options("bogus", &["a.json", "b.json"]);
    let (calls, result) = drive(&opts, all_well(2));
    assert_eq!(calls, vec!["apply a.json".to_string(), "apply b.json".to_string()]);
    assert_eq!(result, Err(Error::UnknownInterface("bogus".to_string())));
}

#[test]
fn failing_user_file_comes_before_unknown_interface() {
    let opts = options("bogus", &["missing.json"]);
    let script = Script { config: vec![Err("not found".to_string())], ..all_well(0) };
    let (calls, result) = drive(&opts, script);
    assert_eq!(calls, vec!["apply missing.json".to_string()]);
    assert_eq!(
        result,
        Err(Error::ConfigApplicationFailed {
            source: user("missing.json"),
            cause: "not found".to_string(),
        })
    );
}

#[test]
fn unknown_interface_never_constructs() {
    for name in ["bogus", "Proxy", "proxy ", " cw310", "hyperdebug-dfu", "ti", "verilator2"] {
        for files in 0..3 {
            let conf: Vec<&str> = ["a", "b"][..files].to_vec();
            let opts = options(name, &conf);
            let (calls, result) = drive(&opts, all_well(files));
            assert!(calls.iter().all(|call| call.starts_with("apply ")));
            assert_eq!(calls.len(), files);
            assert_eq!(result, Err(Error::UnknownInterface(name.to_string())));
        }
    }
}

#[test]
fn empty_interface_ignores_the_other_options() {
    let mut opts = options("", &["one.json", "two.json"]);
    opts.usb_vid = Some(0x18d1);
    opts.usb_pid = Some(0x503a);
    opts.usb_serial = Some("0123".to_string());
    opts.proxy_opts.proxy = Some("remote".to_string());
    opts.cw310_opts.cw310_uarts = Some("/dev/ttyACM0,/dev/ttyACM1".to_string());
    let (calls, result) = drive(&opts, all_well(2));
    assert_eq!(calls, vec!["apply one.json".to_string(), "apply two.json".to_string()]);
    assert_eq!(
        result,
        Ok(handle("", Backend::Empty, vec![user("one.json"), user("two.json")]))
    );
}

#[test]
fn empty_interface_fails_with_its_user_file() {
    let opts = options("", &["broken.json"]);
    let script = Script { config: vec![Err("parse error".to_string())], ..all_well(0) };
    let (_, result) = drive(&opts, script);
    assert_eq!(
        result,
        Err(Error::ConfigApplicationFailed {
            source: user("broken.json"),
            cause: "parse error".to_string(),
        })
    );
}

#[test]
fn user_files_suppress_the_builtin_profile() {
    for name in ["verilator", "ti50emulator", "ultradebug", "hyper310", "c2d2", "cw310"] {
        let opts = options(name, &["empty.json"]);
        let (calls, result) = drive(&opts, all_well(1));
        assert_eq!(calls, vec!["apply empty.json".to_string(), format!("construct {}", name)]);
        assert_eq!(result, Ok(handle(name, Backend::Device(7), vec![user("empty.json")])));
    }
}

#[test]
fn builtin_profile_follows_construction() {
    let table = [
        ("verilator", "/__builtin__/opentitan_verilator.json"),
        ("ti50emulator", "/__builtin__/ti50emulator.json"),
        ("ultradebug", "/__builtin__/opentitan_ultradebug.json"),
        ("hyper310", "/__builtin__/hyperdebug_cw310.json"),
        ("c2d2", "/__builtin__/h1dx_devboard.json"),
        ("cw310", "/__builtin__/opentitan_cw310.json"),
    ];
    for (name, profile) in table {
        let opts = options(name, &[]);
        let (calls, result) = drive(&opts, all_well(0));
        assert_eq!(calls, vec![format!("construct {}", name), format!("apply {}", profile)]);
        assert_eq!(
            result,
            Ok(handle(name, Backend::Device(7), vec![ConfigSource::Builtin(profile)]))
        );
    }
}

#[test]
fn interfaces_without_profile_apply_nothing() {
    for name in ["proxy", "hyperdebug", "hyperdebug_dfu", "ti50"] {
        let opts = options(name, &[]);
        let (calls, result) = drive(&opts, all_well(0));
        assert_eq!(calls, vec![format!("construct {}", name)]);
        assert_eq!(result, Ok(handle(name, Backend::Device(7), vec![])));
    }
}

#[test]
fn user_files_apply_in_the_order_given() {
    let opts = options("proxy", &["a.json", "b.json"]);
    let (calls, result) = drive(&opts, all_well(2));
    assert_eq!(
        calls,
        vec!["apply a.json".to_string(), "apply b.json".to_string(), "construct proxy".to_string()]
    );
    assert_eq!(
        result,
        Ok(handle("proxy", Backend::Device(7), vec![user("a.json"), user("b.json")]))
    );

    let swapped = options("proxy", &["b.json", "a.json"]);
    let (calls, result) = drive(&swapped, all_well(2));
    assert_eq!(calls[..2], ["apply b.json".to_string(), "apply a.json".to_string()]);
    assert_eq!(
        result,
        Ok(handle("proxy", Backend::Device(7), vec![user("b.json"), user("a.json")]))
    );
}

#[test]
fn the_same_file_may_be_listed_twice() {
    let opts = options("ti50", &["a.json", "a.json"]);
    let (calls, result) = drive(&opts, all_well(2));
    assert_eq!(
        calls,
        vec!["apply a.json".to_string(), "apply a.json".to_string(), "construct ti50".to_string()]
    );
    assert_eq!(
        result,
        Ok(handle("ti50", Backend::Device(7), vec![user("a.json"), user("a.json")]))
    );
}

#[test]
fn first_failing_user_file_ends_the_resolution() {
    let opts = options("cw310", &["a.json", "b.json", "c.json"]);
    let script = Script {
        config: vec![Ok(()), Err("schema".to_string()), Ok(())],
        ..all_well(0)
    };
    let (calls, result) = drive(&opts, script);
    assert_eq!(calls, vec!["apply a.json".to_string(), "apply b.json".to_string()]);
    assert_eq!(
        result,
        Err(Error::ConfigApplicationFailed { source: user("b.json"), cause: "schema".to_string() })
    );
}

#[test]
fn failed_construction_is_passed_on() {
    let opts = options("ultradebug", &[]);
    let script = Script { construct: Err("no device".to_string()), ..all_well(0) };
    let (calls, result) = drive(&opts, script);
    assert_eq!(calls, vec!["construct ultradebug".to_string()]);
    assert_eq!(
        result,
        Err(Error::ConstructionFailed {
            interface: Interface::Ultradebug,
            cause: "no device".to_string(),
        })
    );
}

#[test]
fn failed_builtin_profile_is_passed_on() {
    let opts = options("verilator", &[]);
    let script = Script { profile: Err("corrupt".to_string()), ..all_well(0) };
    let (calls, result) = drive(&opts, script);
    assert_eq!(
        calls,
        vec![
            "construct verilator".to_string(),
            "apply /__builtin__/opentitan_verilator.json".to_string(),
        ]
    );
    assert_eq!(
        result,
        Err(Error::ConfigApplicationFailed {
            source: ConfigSource::Builtin("/__builtin__/opentitan_verilator.json"),
            cause: "corrupt".to_string(),
        })
    );
}

#[test]
fn config_step_names_position_and_path() {
    let opts = options("proxy", &["a.json", "b.json"]);
    let first: Resolution<u32, String> = begin(&opts);
    let Resolution::ApplyConfig(step) = first else { panic!("a user file comes first") };
    assert_eq!(step.index(), 0);
    assert_eq!(step.path(), "a.json");
    let second: Resolution<u32, String> = step.resume(Ok(()));
    let Resolution::ApplyConfig(step) = second else { panic!("the second file comes next") };
    assert_eq!(step.index(), 1);
    assert_eq!(step.path(), "b.json");
    let third: Resolution<u32, String> = step.resume(Ok(()));
    assert!(matches!(third, Resolution::Construct(_)));
}

#[test]
fn requests_carry_the_options_of_their_backend() {
    let mut opts = options("proxy", &[]);
    opts.proxy_opts = ProxyOpts { proxy: Some("lab".to_string()), port: 1234 };
    opts.verilator_opts.verilator_bin = "sim".to_string();
    opts.ti50emulator_opts.instance_prefix = "t".to_string();
    opts.usb_serial = Some("42".to_string());
    let expected = [
        ("proxy", ConstructRequest::Proxy(&opts.proxy_opts)),
        ("verilator", ConstructRequest::Verilator(&opts.verilator_opts)),
        ("ti50emulator", ConstructRequest::Ti50Emulator(&opts.ti50emulator_opts)),
    ];
    for (name, request) in expected {
        let mut named = opts.clone();
        named.interface = name.to_string();
        let first: Resolution<u32, String> = begin(&named);
        let Resolution::Construct(step) = first else { panic!("{} has a constructor", name) };
        assert_eq!(step.request(), request);
        assert_eq!(step.interface().as_str(), name);
    }
}

#[test]
fn requests_of_probes_carry_the_whole_bundle() {
    let table = [
        ("ultradebug", Interface::Ultradebug),
        ("hyper310", Interface::Hyper310),
        ("hyperdebug", Interface::Hyperdebug),
        ("hyperdebug_dfu", Interface::HyperdebugDfu),
        ("c2d2", Interface::C2d2),
        ("ti50", Interface::Ti50),
        ("cw310", Interface::Cw310),
    ];
    for (name, interface) in table {
        let mut opts = options(name, &[]);
        opts.usb_vid = Some(1);
        opts.usb_serial = Some(name.to_string());
        let first: Resolution<u32, String> = begin(&opts);
        let Resolution::Construct(step) = first else { panic!("{} has a constructor", name) };
        assert_eq!(step.interface(), interface);
        let expected = match interface {
            Interface::Ultradebug => ConstructRequest::Ultradebug(&opts),
            Interface::Hyper310 => ConstructRequest::Hyperdebug(Flavor::Cw310, &opts),
            Interface::Hyperdebug => ConstructRequest::Hyperdebug(Flavor::Standard, &opts),
            Interface::HyperdebugDfu => ConstructRequest::HyperdebugDfu(&opts),
            Interface::C2d2 => ConstructRequest::Hyperdebug(Flavor::C2d2, &opts),
            Interface::Ti50 => ConstructRequest::Hyperdebug(Flavor::Ti50, &opts),
            _ => ConstructRequest::Cw310(&opts),
        };
        assert_eq!(step.request(), expected);
        assert_eq!(step.request().interface(), interface);
    }
}

#[test]
fn create_hands_each_constructor_its_options() {
    let mut opts = options("", &["user.json"]);
    opts.proxy_opts = ProxyOpts { proxy: Some("lab".to_string()), port: 1234 };
    opts.verilator_opts.verilator_args = vec!["+trace".to_string()];
    opts.ti50emulator_opts.instance_prefix = "bench".to_string();
    opts.usb_vid = Some(0x18d1);
    for name in [
        "proxy", "verilator", "ti50emulator", "ultradebug", "hyper310", "hyperdebug",
        "hyperdebug_dfu", "c2d2", "ti50", "cw310",
    ] {
        opts.interface = name.to_string();
        let expected = match name {
            "proxy" => ConstructRequest::Proxy(&opts.proxy_opts),
            "verilator" => ConstructRequest::Verilator(&opts.verilator_opts),
            "ti50emulator" => ConstructRequest::Ti50Emulator(&opts.ti50emulator_opts),
            "ultradebug" => ConstructRequest::Ultradebug(&opts),
            "hyper310" => ConstructRequest::Hyperdebug(Flavor::Cw310, &opts),
            "hyperdebug" => ConstructRequest::Hyperdebug(Flavor::Standard, &opts),
            "hyperdebug_dfu" => ConstructRequest::HyperdebugDfu(&opts),
            "c2d2" => ConstructRequest::Hyperdebug(Flavor::C2d2, &opts),
            "ti50" => ConstructRequest::Hyperdebug(Flavor::Ti50, &opts),
            _ => ConstructRequest::Cw310(&opts),
        };
        let mut recorder = Recorder::new(all_well(1));
        let result = create(&opts, &mut recorder);
        assert_eq!(recorder.requests, vec![format!("{:?}", expected)]);
        assert_eq!(recorder.calls, vec!["apply user.json".to_string(), format!("construct {}", name)]);
        assert_eq!(result, Ok(handle(name, Backend::Device(7), vec![user("user.json")])));
    }
}

#[test]
fn route_has_no_constructor_for_the_empty_interface() {
    let opts = options("", &[]);
    assert_eq!(ConstructRequest::route(&opts, Interface::Empty), None);
    assert_eq!(
        ConstructRequest::route(&opts, Interface::Proxy),
        Some(ConstructRequest::Proxy(&opts.proxy_opts))
    );
    assert_eq!(
        ConstructRequest::route(&opts, Interface::C2d2),
        Some(ConstructRequest::Hyperdebug(Flavor::C2d2, &opts))
    );
}

#[test]
fn default_step_names_its_profile() {
    let opts = options("c2d2", &[]);
    let first: Resolution<u32, String> = begin(&opts);
    let Resolution::Construct(step) = first else { panic!("c2d2 has a constructor") };
    let second: Resolution<u32, String> = step.resume(Ok(3));
    let Resolution::ApplyDefault(step) = second else { panic!("c2d2 has a profile") };
    assert_eq!(step.profile(), "/__builtin__/h1dx_devboard.json");
    let last: Resolution<u32, String> = step.resume(Ok(()));
    let Resolution::Done(Ok(made)) = last else { panic!("nothing is left to fail") };
    assert_eq!(made.backend, Backend::Device(3));
}

#[test]
fn steps_and_create_agree() {
    let names = ["", "proxy", "verilator", "ultradebug", "hyperdebug", "cw310", "bogus"];
    let answers = [Ok(()), Err("failed".to_string())];
    for name in names {
        for files in 0..3 {
            let conf: Vec<&str> = ["a.json", "b.json"][..files].to_vec();
            let opts = options(name, &conf);
            for first in &answers {
                for second in &answers {
                    for construct in [Ok(9), Err("unreachable".to_string())] {
                        for profile in &answers {
                            let script = || Script {
                                config: vec![first.clone(), second.clone()],
                                construct: construct.clone(),
                                profile: profile.clone(),
                            };
                            assert_eq!(drive(&opts, script()), step_through(&opts, script()));
                        }
                    }
                }
            }
        }
    }
}

#[test]
fn steps_name_their_sources() {
    let opts = options("cw310", &["user.json"]);
    let first: Resolution<u32, String> = begin(&opts);
    let Resolution::ApplyConfig(step) = first else { panic!("a user file comes first") };
    assert_eq!(step.source(), user("user.json"));
    assert_eq!(step.source().path(), "user.json");

    let bare = options("cw310", &[]);
    let first: Resolution<u32, String> = begin(&bare);
    let Resolution::Construct(step) = first else { panic!("cw310 has a constructor") };
    let second: Resolution<u32, String> = step.resume(Ok(1));
    let Resolution::ApplyDefault(step) = second else { panic!("cw310 has a profile") };
    assert_eq!(step.source(), ConfigSource::Builtin("/__builtin__/opentitan_cw310.json"));
    assert_eq!(step.source().path(), "/__builtin__/opentitan_cw310.json");
}

#[test]
fn empty_transport_is_the_stub() {
    assert_eq!(create_empty_transport::<u32, String>(), Ok(Backend::Empty));
}

#[test]
fn resolution_leaves_the_options_as_they_were() {
    let opts = options("cw310", &["user.json"]);
    let before = opts.clone();
    let _ = drive(&opts, all_well(1));
    assert_eq!(opts, before);
}
