//! The closed set of interface names and the table of built-in profiles.

use vstd::prelude::*;
use crate::text::str_eq;

verus! {

/// Device flavor of a HyperDebug probe.
#[derive(Clone, Copy, Debug, PartialEq, Eq, Structural)]
pub enum Flavor {
    Standard,
    Cw310,
    C2d2,
    Ti50,
}

/// An interface name that resolution recognises.
#[derive(Clone, Copy, Debug, PartialEq, Eq, Structural)]
pub enum Interface {
    /// The empty name: no hardware, a stub transport.
    Empty,
    Proxy,
    Verilator,
    Ti50Emulator,
    Ultradebug,
    Hyper310,
    Hyperdebug,
    HyperdebugDfu,
    C2d2,
    Ti50,
    Cw310,
}

impl Interface {
    /// The name by which the interface is requested.
    pub open spec fn name(self) -> Seq<char> {
        match self {
            Interface::Empty => ""@,
            Interface::Proxy => "proxy"@,
            Interface::Verilator => "verilator"@,
            Interface::Ti50Emulator => "ti50emulator"@,
            Interface::Ultradebug => "ultradebug"@,
            Interface::Hyper310 => "hyper310"@,
            Interface::Hyperdebug => "hyperdebug"@,
            Interface::HyperdebugDfu => "hyperdebug_dfu"@,
            Interface::C2d2 => "c2d2"@,
            Interface::Ti50 => "ti50"@,
            Interface::Cw310 => "cw310"@,
        }
    }

    /// The interface that `name` asks for: an exact, case-sensitive match, or none.
    pub open spec fn named(name: Seq<char>) -> Option<Interface> {
        if name == Interface::Empty.name() {
            Some(Interface::Empty)
        } else if name == Interface::Proxy.name() {
            Some(Interface::Proxy)
        } else if name == Interface::Verilator.name() {
            Some(Interface::Verilator)
        } else if name == Interface::Ti50Emulator.name() {
            Some(Interface::Ti50Emulator)
        } else if name == Interface::Ultradebug.name() {
            Some(Interface::Ultradebug)
        } else if name == Interface::Hyper310.name() {
            Some(Interface::Hyper310)
        } else if name == Interface::Hyperdebug.name() {
            Some(Interface::Hyperdebug)
        } else if name == Interface::HyperdebugDfu.name() {
            Some(Interface::HyperdebugDfu)
        } else if name == Interface::C2d2.name() {
            Some(Interface::C2d2)
        } else if name == Interface::Ti50.name() {
            Some(Interface::Ti50)
        } else if name == Interface::Cw310.name() {
            Some(Interface::Cw310)
        } else {
            None
        }
    }

    /// The built-in profile of the interface, if it has one.
    pub open spec fn profile(self) -> Option<Seq<char>> {
        match self {
            Interface::Verilator => Some("/__builtin__/opentitan_verilator.json"@),
            Interface::Ti50Emulator => Some("/__builtin__/ti50emulator.json"@),
            Interface::Ultradebug => Some("/__builtin__/opentitan_ultradebug.json"@),
            Interface::Hyper310 => Some("/__builtin__/hyperdebug_cw310.json"@),
            Interface::C2d2 => Some("/__builtin__/h1dx_devboard.json"@),
            Interface::Cw310 => Some("/__builtin__/opentitan_cw310.json"@),
            Interface::Empty
            | Interface::Proxy
            | Interface::Hyperdebug
            | Interface::HyperdebugDfu
            | Interface::Ti50 => None,
        }
    }

    /// The name by which the interface is requested.
    pub fn as_str(self) -> (name: &'static str)
        ensures
            name@ == self.name(),
    {
        match self {
            Interface::Empty => "",
            Interface::Proxy => "proxy",
            Interface::Verilator => "verilator",
            Interface::Ti50Emulator => "ti50emulator",
            Interface::Ultradebug => "ultradebug",
            Interface::Hyper310 => "hyper310",
            Interface::Hyperdebug => "hyperdebug",
            Interface::HyperdebugDfu => "hyperdebug_dfu",
            Interface::C2d2 => "c2d2",
            Interface::Ti50 => "ti50",
            Interface::Cw310 => "cw310",
        }
    }

    /// Classifies a requested name.
    pub fn from_name(name: &str) -> (found: Option<Interface>)
        ensures
            found == Interface::named(name@),
    {
        if str_eq(name, Interface::Empty.as_str()) {
            Some(Interface::Empty)
        } else if str_eq(name, Interface::Proxy.as_str()) {
            Some(Interface::Proxy)
        } else if str_eq(name, Interface::Verilator.as_str()) {
            Some(Interface::Verilator)
        } else if str_eq(name, Interface::Ti50Emulator.as_str()) {
            Some(Interface::Ti50Emulator)
        } else if str_eq(name, Interface::Ultradebug.as_str()) {
            Some(Interface::Ultradebug)
        } else if str_eq(name, Interface::Hyper310.as_str()) {
            Some(Interface::Hyper310)
        } else if str_eq(name, Interface::Hyperdebug.as_str()) {
            Some(Interface::Hyperdebug)
        } else if str_eq(name, Interface::HyperdebugDfu.as_str()) {
            Some(Interface::HyperdebugDfu)
        } else if str_eq(name, Interface::C2d2.as_str()) {
            Some(Interface::C2d2)
        } else if str_eq(name, Interface::Ti50.as_str()) {
            Some(Interface::Ti50)
        } else if str_eq(name, Interface::Cw310.as_str()) {
            Some(Interface::Cw310)
        } else {
            None
        }
    }

    /// Looks the interface up in the table of built-in profiles.
    pub fn default_profile(self) -> (path: Option<&'static str>)
        ensures
            match path {
                Some(p) => self.profile() == Some(p@),
                None => self.profile() is None,
            },
    {
        match self {
            Interface::Verilator => Some("/__builtin__/opentitan_verilator.json"),
            Interface::Ti50Emulator => Some("/__builtin__/ti50emulator.json"),
            Interface::Ultradebug => Some("/__builtin__/opentitan_ultradebug.json"),
            Interface::Hyper310 => Some("/__builtin__/hyperdebug_cw310.json"),
            Interface::C2d2 => Some("/__builtin__/h1dx_devboard.json"),
            Interface::Cw310 => Some("/__builtin__/opentitan_cw310.json"),
            Interface::Empty
            | Interface::Proxy
            | Interface::Hyperdebug
            | Interface::HyperdebugDfu
            | Interface::Ti50 => None,
        }
    }
}

/// The reserved prefix under which the bundled profiles live.
pub open spec fn builtin_prefix() -> Seq<char> {
    "/__builtin__/"@
}

/// Every interface is found again under its own name, so no two interfaces
/// share a name.
pub proof fn law_names_are_distinct(interface: Interface)
    ensures
        Interface::named(interface.name()) == Some(interface),
{
    reveal_strlit("");
    reveal_strlit("proxy");
    reveal_strlit("verilator");
    reveal_strlit("ti50emulator");
    reveal_strlit("ultradebug");
    reveal_strlit("hyper310");
    reveal_strlit("hyperdebug");
    reveal_strlit("hyperdebug_dfu");
    reveal_strlit("c2d2");
    reveal_strlit("ti50");
    reveal_strlit("cw310");
    // Any two names differ in length or in their first character.
    assert(""@.len() == 0);
    assert("proxy"@.len() == 5 && "proxy"@[0] == 'p');
    assert("verilator"@.len() == 9);
    assert("ti50emulator"@.len() == 12);
    assert("ultradebug"@.len() == 10 && "ultradebug"@[0] == 'u');
    assert("hyper310"@.len() == 8);
    assert("hyperdebug"@.len() == 10 && "hyperdebug"@[0] == 'h');
    assert("hyperdebug_dfu"@.len() == 14);
    assert("c2d2"@.len() == 4 && "c2d2"@[0] == 'c');
    assert("ti50"@.len() == 4 && "ti50"@[0] == 't');
    assert("cw310"@.len() == 5 && "cw310"@[0] == 'c');
}

/// A name is recognised exactly when it is the name of an interface.
pub proof fn law_named_iff_name(name: Seq<char>, interface: Interface)
    ensures
        Interface::named(name) == Some(interface) <==> name == interface.name(),
{
    law_names_are_distinct(interface);
}

/// Every built-in profile lives under the reserved prefix.
pub proof fn law_profiles_are_builtin(interface: Interface)
    ensures
        interface.profile() matches Some(path) ==> builtin_prefix().is_prefix_of(path),
{
    reveal_strlit("/__builtin__/");
    reveal_strlit("/__builtin__/opentitan_verilator.json");
    reveal_strlit("/__builtin__/ti50emulator.json");
    reveal_strlit("/__builtin__/opentitan_ultradebug.json");
    reveal_strlit("/__builtin__/hyperdebug_cw310.json");
    reveal_strlit("/__builtin__/h1dx_devboard.json");
    reveal_strlit("/__builtin__/opentitan_cw310.json");
    if interface.profile() is Some {
        assert(builtin_prefix() =~= interface.profile()->0.subrange(0, 13));
    }
}

} // verus!
