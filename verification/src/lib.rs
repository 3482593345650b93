//! Selects and configures a hardware-debug transport backend.
//!
//! A caller names an interface and, optionally, configuration files.  The
//! library decides which backend constructor serves that name, in which order
//! configuration is layered, and whether the interface's built-in profile
//! applies.  Constructing a backend and reading a configuration file are the
//! caller's business, reached through [`Collaborators`].
//!
//! [`create`] runs a whole resolution against the collaborators.  [`begin`]
//! gives the same resolution one step at a time, for callers that make the
//! calls themselves: every step names the call it waits for and takes its
//! answer.
//!
//! User files are applied first, in the order given, and only then is the
//! interface name classified, so a file that fails to apply is reported even
//! where the name is unknown.  The built-in profile is applied after the
//! backend exists, and only if the user named no file at all.
//!
//! `model` holds the mathematics that the contracts speak of, `laws` what is
//! proved of every resolution.

pub mod backend;
pub mod environment;
pub mod error;
pub mod interface;
pub mod laws;
pub mod model;
pub mod options;
pub mod resolver;
pub mod text;

pub use backend::{create, Collaborators};
pub use environment::{Backend, ConfigSource, TransportWrapper, TransportWrapperBuilder};
pub use error::Error;
pub use interface::{Flavor, Interface};
pub use options::{BackendOpts, Cw310Opts, ProxyOpts, Ti50EmulatorOpts, VerilatorOpts};
pub use resolver::{
    begin, create_empty_transport, ConfigStep, ConstructRequest, ConstructStep, DefaultStep,
    Resolution,
};
