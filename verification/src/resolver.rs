//! Resolution, one collaborator call at a time.
//!
//! `begin` starts a resolution and says which call it waits for first.  The
//! caller makes that call and hands the answer to the step's `resume`, which
//! says what comes next, until the resolution is `Done`.  Each step accepts
//! only the answer to its own call, so a resolution cannot be driven out of
//! order.

use vstd::prelude::*;
use crate::environment::{
    Backend,
    ConfigSource,
    Handle,
    Layer,
    TransportWrapper,
    TransportWrapperBuilder,
};
use crate::error::{Error, Failure};
use crate::interface::{Flavor, Interface};
use crate::model::{
    after_config,
    after_construct,
    after_default,
    configured,
    environment_at,
    selected,
    start,
    user_layers,
    Stage,
};
use crate::options::{BackendOpts, ProxyOpts, Ti50EmulatorOpts, VerilatorOpts};

verus! {

/// A backend constructor together with the options it is to be given.
#[derive(Clone, Copy, Debug, PartialEq, Eq)]
pub enum ConstructRequest<'a> {
    Proxy(&'a ProxyOpts),
    Verilator(&'a VerilatorOpts),
    Ti50Emulator(&'a Ti50EmulatorOpts),
    Ultradebug(&'a BackendOpts),
    Hyperdebug(Flavor, &'a BackendOpts),
    HyperdebugDfu(&'a BackendOpts),
    Cw310(&'a BackendOpts),
}

impl<'a> ConstructRequest<'a> {
    /// The constructor of `interface`, with the part of `opts` that it reads.
    /// The empty interface has no constructor.
    pub open spec fn routed(opts: &'a BackendOpts, interface: Interface) -> Option<
        ConstructRequest<'a>,
    > {
        match interface {
            Interface::Empty => None,
            Interface::Proxy => Some(ConstructRequest::Proxy(&opts.proxy_opts)),
            Interface::Verilator => Some(ConstructRequest::Verilator(&opts.verilator_opts)),
            Interface::Ti50Emulator => Some(
                ConstructRequest::Ti50Emulator(&opts.ti50emulator_opts),
            ),
            Interface::Ultradebug => Some(ConstructRequest::Ultradebug(opts)),
            Interface::Hyper310 => Some(ConstructRequest::Hyperdebug(Flavor::Cw310, opts)),
            Interface::Hyperdebug => Some(ConstructRequest::Hyperdebug(Flavor::Standard, opts)),
            Interface::HyperdebugDfu => Some(ConstructRequest::HyperdebugDfu(opts)),
            Interface::C2d2 => Some(ConstructRequest::Hyperdebug(Flavor::C2d2, opts)),
            Interface::Ti50 => Some(ConstructRequest::Hyperdebug(Flavor::Ti50, opts)),
            Interface::Cw310 => Some(ConstructRequest::Cw310(opts)),
        }
    }

    /// The interface that the request constructs a backend for.
    pub open spec fn target(self) -> Interface {
        match self {
            ConstructRequest::Proxy(_) => Interface::Proxy,
            ConstructRequest::Verilator(_) => Interface::Verilator,
            ConstructRequest::Ti50Emulator(_) => Interface::Ti50Emulator,
            ConstructRequest::Ultradebug(_) => Interface::Ultradebug,
            ConstructRequest::Hyperdebug(Flavor::Cw310, _) => Interface::Hyper310,
            ConstructRequest::Hyperdebug(Flavor::Standard, _) => Interface::Hyperdebug,
            ConstructRequest::Hyperdebug(Flavor::C2d2, _) => Interface::C2d2,
            ConstructRequest::Hyperdebug(Flavor::Ti50, _) => Interface::Ti50,
            ConstructRequest::HyperdebugDfu(_) => Interface::HyperdebugDfu,
            ConstructRequest::Cw310(_) => Interface::Cw310,
        }
    }

    /// Picks the constructor of `interface` and the part of `opts` that it reads.
    pub fn route(opts: &'a BackendOpts, interface: Interface) -> (request: Option<
        ConstructRequest<'a>,
    >)
        ensures
            request == ConstructRequest::routed(opts, interface),
    {
        match interface {
            Interface::Empty => None,
            Interface::Proxy => Some(ConstructRequest::Proxy(&opts.proxy_opts)),
            Interface::Verilator => Some(ConstructRequest::Verilator(&opts.verilator_opts)),
            Interface::Ti50Emulator => Some(
                ConstructRequest::Ti50Emulator(&opts.ti50emulator_opts),
            ),
            Interface::Ultradebug => Some(ConstructRequest::Ultradebug(opts)),
            Interface::Hyper310 => Some(ConstructRequest::Hyperdebug(Flavor::Cw310, opts)),
            Interface::Hyperdebug => Some(ConstructRequest::Hyperdebug(Flavor::Standard, opts)),
            Interface::HyperdebugDfu => Some(ConstructRequest::HyperdebugDfu(opts)),
            Interface::C2d2 => Some(ConstructRequest::Hyperdebug(Flavor::C2d2, opts)),
            Interface::Ti50 => Some(ConstructRequest::Hyperdebug(Flavor::Ti50, opts)),
            Interface::Cw310 => Some(ConstructRequest::Cw310(opts)),
        }
    }

    /// The interface that the request constructs a backend for.
    pub fn interface(&self) -> (interface: Interface)
        ensures
            interface == self.target(),
    {
        match *self {
            ConstructRequest::Proxy(_) => Interface::Proxy,
            ConstructRequest::Verilator(_) => Interface::Verilator,
            ConstructRequest::Ti50Emulator(_) => Interface::Ti50Emulator,
            ConstructRequest::Ultradebug(_) => Interface::Ultradebug,
            ConstructRequest::Hyperdebug(Flavor::Cw310, _) => Interface::Hyper310,
            ConstructRequest::Hyperdebug(Flavor::Standard, _) => Interface::Hyperdebug,
            ConstructRequest::Hyperdebug(Flavor::C2d2, _) => Interface::C2d2,
            ConstructRequest::Hyperdebug(Flavor::Ti50, _) => Interface::Ti50,
            ConstructRequest::HyperdebugDfu(_) => Interface::HyperdebugDfu,
            ConstructRequest::Cw310(_) => Interface::Cw310,
        }
    }
}

/// A resolution that waits for a user configuration file to be applied.
#[derive(Debug)]
pub struct ConfigStep<'a> {
    args: &'a BackendOpts,
    env: TransportWrapperBuilder,
    index: usize,
}

/// A resolution that waits for a backend to be constructed.
#[derive(Debug)]
pub struct ConstructStep<'a> {
    args: &'a BackendOpts,
    env: TransportWrapperBuilder,
    request: ConstructRequest<'a>,
}

/// A resolution that waits for the built-in profile to be applied.
#[derive(Debug)]
pub struct DefaultStep<'a, B> {
    args: &'a BackendOpts,
    env: TransportWrapperBuilder,
    backend: B,
    profile: &'static str,
}

/// Where a resolution stands: the call it waits for, or its result.
#[derive(Debug)]
pub enum Resolution<'a, B, E> {
    ApplyConfig(ConfigStep<'a>),
    Construct(ConstructStep<'a>),
    ApplyDefault(DefaultStep<'a, B>),
    Done(Result<TransportWrapper<B>, Error<E>>),
}

/// What the result of a resolution stands for.
pub open spec fn outcome_of<B, E>(result: Result<TransportWrapper<B>, Error<E>>) -> Result<
    Handle<B>,
    Failure<E>,
> {
    match result {
        Ok(handle) => Ok(handle@),
        Err(error) => Err(error@),
    }
}

impl<'a, B, E> Resolution<'a, B, E> {
    /// The stage at which the resolution stands.
    pub open spec fn stage(&self) -> Stage<B, E> {
        match *self {
            Resolution::ApplyConfig(step) => Stage::Configuring { index: step.position() },
            Resolution::Construct(step) => Stage::Constructing { interface: step.target() },
            Resolution::ApplyDefault(step) => Stage::Defaulting {
                backend: step.instance(),
                profile: step.resource(),
            },
            Resolution::Done(result) => Stage::Finished { result: outcome_of(result) },
        }
    }

    /// Whether the resolution, as long as it is not done, reads `opts`.
    pub open spec fn serves(&self, opts: &BackendOpts) -> bool {
        match *self {
            Resolution::ApplyConfig(step) => step.options() == opts,
            Resolution::Construct(step) => step.options() == opts,
            Resolution::ApplyDefault(step) => step.options() == opts,
            Resolution::Done(result) => true,
        }
    }
}

impl<'a> ConfigStep<'a> {
    #[verifier::type_invariant]
    spec fn consistent(&self) -> bool {
        &&& self.index < self.args.conf.len()
        &&& self.env@ == environment_at(self.args, self.index as nat)
    }

    /// The options that the resolution reads.
    pub closed spec fn options(&self) -> &BackendOpts {
        self.args
    }

    /// The position of the file to apply.
    pub closed spec fn position(&self) -> nat {
        self.index as nat
    }

    /// The position, among the user files, of the file to apply.
    pub fn index(&self) -> (index: usize)
        ensures
            index == self.position(),
            index < self.options().files(),
    {
        proof {
            use_type_invariant(self);
        }
        self.index
    }

    /// The path of the file to apply.
    pub fn path(&self) -> (path: &'a str)
        ensures
            self.position() < self.options().files(),
            path@ == self.options().file(self.position() as int),
    {
        proof {
            use_type_invariant(self);
        }
        self.args.conf[self.index].as_str()
    }

    /// The file to apply, as a configuration source.
    pub fn source(&self) -> (source: ConfigSource)
        ensures
            self.position() < self.options().files(),
            source@ == Layer::UserFile(self.options().file(self.position() as int)),
    {
        proof {
            use_type_invariant(self);
        }
        ConfigSource::UserFile(self.args.conf[self.index].clone())
    }

    /// Takes the answer to applying the file.  A failure ends the resolution
    /// with that failure; a success moves on to the next file or, after the
    /// last one, to the selection of the backend.
    pub fn resume<B, E>(self, outcome: Result<(), E>) -> (next: Resolution<'a, B, E>)
        ensures
            next.stage() == after_config::<B, E>(self.options(), self.position(), outcome),
            next.serves(self.options()),
    {
        proof {
            use_type_invariant(&self);
        }
        let ConfigStep { args, env, index } = self;
        let mut env = env;
        let source = ConfigSource::UserFile(args.conf[index].clone());
        match outcome {
            Ok(_) => {
                env.add_layer(source);
                assert(user_layers(args).take(index as int).push(source@) =~= user_layers(
                    args,
                ).take(index + 1));
                proceed(args, env, index + 1)
            },
            Err(cause) => Resolution::Done(Err(Error::ConfigApplicationFailed { source, cause })),
        }
    }
}

impl<'a> ConstructStep<'a> {
    #[verifier::type_invariant]
    spec fn consistent(&self) -> bool {
        &&& Interface::named(self.args.interface@) == Some(self.request.target())
        &&& ConstructRequest::routed(self.args, self.request.target()) == Some(self.request)
        &&& self.env@ == environment_at(self.args, self.args.files())
    }

    /// The options that the resolution reads.
    pub closed spec fn options(&self) -> &BackendOpts {
        self.args
    }

    /// The interface whose backend is to be constructed.
    pub closed spec fn target(&self) -> Interface {
        self.request.target()
    }

    /// The interface whose backend is to be constructed: the one that the
    /// options name, and never the empty one.
    pub fn interface(&self) -> (interface: Interface)
        ensures
            interface == self.target(),
            interface != Interface::Empty,
            Interface::named(self.options().interface@) == Some(interface),
    {
        proof {
            use_type_invariant(self);
        }
        self.request.interface()
    }

    /// The constructor to invoke and the options to hand to it.
    pub fn request(&self) -> (request: ConstructRequest<'a>)
        ensures
            Some(request) == ConstructRequest::routed(self.options(), self.target()),
    {
        proof {
            use_type_invariant(self);
        }
        self.request
    }

    /// Takes the answer of the constructor.  A failure ends the resolution
    /// with that failure.  A backend is bound to the environment at once,
    /// unless the built-in profile is still to be applied.
    pub fn resume<B, E>(self, outcome: Result<B, E>) -> (next: Resolution<'a, B, E>)
        ensures
            next.stage() == after_construct::<B, E>(self.options(), self.target(), outcome),
            next.serves(self.options()),
    {
        proof {
            use_type_invariant(&self);
        }
        let ConstructStep { args, env, request } = self;
        let interface = request.interface();
        match outcome {
            Ok(backend) => {
                let profile = if args.conf.is_empty() {
                    interface.default_profile()
                } else {
                    None
                };
                match profile {
                    Some(profile) => Resolution::ApplyDefault(
                        DefaultStep { args, env, backend, profile },
                    ),
                    None => {
                        assert(user_layers(args).take(args.files() as int) =~= user_layers(args));
                        Resolution::Done(Ok(env.build(Backend::Device(backend))))
                    },
                }
            },
            Err(cause) => Resolution::Done(Err(Error::ConstructionFailed { interface, cause })),
        }
    }
}

impl<'a, B> DefaultStep<'a, B> {
    #[verifier::type_invariant]
    spec fn consistent(&self) -> bool {
        &&& self.args.files() == 0
        &&& Interface::named(self.args.interface@) matches Some(interface)
        &&& interface.profile() == Some(self.profile@)
        &&& self.env@ == environment_at(self.args, 0)
    }

    /// The options that the resolution reads.
    pub closed spec fn options(&self) -> &BackendOpts {
        self.args
    }

    /// The backend that was constructed.
    pub closed spec fn instance(&self) -> B {
        self.backend
    }

    /// The reserved path of the profile to apply.
    pub closed spec fn resource(&self) -> Seq<char> {
        self.profile@
    }

    /// The reserved path of the profile to apply.
    pub fn profile(&self) -> (path: &'static str)
        ensures
            path@ == self.resource(),
            self.options().files() == 0,
            Interface::named(self.options().interface@) matches Some(interface)
                && interface.profile() == Some(path@),
    {
        proof {
            use_type_invariant(self);
        }
        self.profile
    }

    /// The profile to apply, as a configuration source.
    pub fn source(&self) -> (source: ConfigSource)
        ensures
            source@ == Layer::Builtin(self.resource()),
    {
        ConfigSource::Builtin(self.profile)
    }

    /// Takes the answer to applying the profile, which ends the resolution
    /// either way: in that failure, or in the handle.
    pub fn resume<E>(self, outcome: Result<(), E>) -> (next: Resolution<'a, B, E>)
        ensures
            next.stage() == after_default::<B, E>(
                self.options(),
                self.instance(),
                self.resource(),
                outcome,
            ),
            next.serves(self.options()),
    {
        proof {
            use_type_invariant(&self);
        }
        let DefaultStep { args, env, backend, profile } = self;
        let mut env = env;
        let source = ConfigSource::Builtin(profile);
        match outcome {
            Ok(_) => {
                env.add_layer(source);
                assert(user_layers(args).take(0).push(source@) =~= seq![Layer::Builtin(profile@)]);
                Resolution::Done(Ok(env.build(Backend::Device(backend))))
            },
            Err(cause) => Resolution::Done(Err(Error::ConfigApplicationFailed { source, cause })),
        }
    }
}

/// Classifies the interface name once every user file is applied.
fn select<'a, B, E>(args: &'a BackendOpts, env: TransportWrapperBuilder) -> (next: Resolution<
    'a,
    B,
    E,
>)
    requires
        env@ == environment_at(args, args.files()),
    ensures
        next.stage() == selected::<B, E>(args),
        next.serves(args),
{
    assert(user_layers(args).take(args.files() as int) =~= user_layers(args));
    match Interface::from_name(env.get_interface()) {
        None => Resolution::Done(Err(Error::UnknownInterface(args.interface.clone()))),
        Some(interface) => match ConstructRequest::route(args, interface) {
            None => match create_empty_transport() {
                Ok(backend) => Resolution::Done(Ok(env.build(backend))),
                Err(error) => Resolution::Done(Err(error)),
            },
            Some(request) => Resolution::Construct(ConstructStep { args, env, request }),
        },
    }
}

/// Moves on once the first `applied` user files are applied.
fn proceed<'a, B, E>(args: &'a BackendOpts, env: TransportWrapperBuilder, applied: usize) -> (next:
    Resolution<'a, B, E>)
    requires
        applied <= args.files(),
        env@ == environment_at(args, applied as nat),
    ensures
        next.stage() == configured::<B, E>(args, applied as nat),
        next.serves(args),
{
    if applied < args.conf.len() {
        Resolution::ApplyConfig(ConfigStep { args, env, index: applied })
    } else {
        select(args, env)
    }
}

/// Begins the resolution of `args`: makes the fresh environment, named with
/// the interface, and says what is to be done first.
pub fn begin<'a, B, E>(args: &'a BackendOpts) -> (first: Resolution<'a, B, E>)
    ensures
        first.stage() == start::<B, E>(args),
        first.serves(args),
{
    let env = TransportWrapperBuilder::new(args.interface.clone());
    assert(user_layers(args).take(0) =~= Seq::empty());
    proceed(args, env, 0)
}

/// The stub backend that serves the empty interface name.  It never fails.
pub fn create_empty_transport<B, E>() -> (made: Result<Backend<B>, Error<E>>)
    ensures
        made == Ok::<Backend<B>, Error<E>>(Backend::Empty),
{
    Ok(Backend::Empty)
}

} // verus!
