//! The mathematics of a resolution.
//!
//! A resolution moves through stages.  Each stage but the last waits for one
//! collaborator call: applying a configuration source, or constructing a
//! backend.  The answer to that call decides the next stage.  The functions
//! here say which stage follows which, and what a whole resolution amounts to
//! when the collaborators' answers are given as a `World`.

use vstd::prelude::*;
use crate::environment::{Backend, Environment, Handle, Layer};
use crate::error::Failure;
use crate::interface::Interface;
use crate::options::BackendOpts;

verus! {

/// Where a resolution stands.
pub enum Stage<B, E> {
    /// The user file at position `index` is to be applied.
    Configuring { index: nat },
    /// The backend constructor of `interface` is to be invoked.
    Constructing { interface: Interface },
    /// The built-in `profile` is to be applied, now that `backend` exists.
    Defaulting { backend: B, profile: Seq<char> },
    /// Nothing is left to do.
    Finished { result: Result<Handle<B>, Failure<E>> },
}

/// A call that a resolution asks a collaborator to make.
pub enum Call {
    /// Apply this configuration source to the environment.
    ApplyConfig(Layer),
    /// Invoke the backend constructor of this interface.
    Construct(Interface),
}

/// The layers that the user files of `opts` stand for, in their order.
pub open spec fn user_layers(opts: &BackendOpts) -> Seq<Layer> {
    Seq::new(opts.files(), |i: int| Layer::UserFile(opts.file(i)))
}

/// The calls that apply the user files of `opts`, in their order.
pub open spec fn user_calls(opts: &BackendOpts) -> Seq<Call> {
    Seq::new(opts.files(), |i: int| Call::ApplyConfig(Layer::UserFile(opts.file(i))))
}

/// The environment once the first `applied` user files are applied.
pub open spec fn environment_at(opts: &BackendOpts, applied: nat) -> Environment {
    Environment { interface: opts.interface@, layers: user_layers(opts).take(applied as int) }
}

/// Whether the built-in profile of `interface` is to be applied: the user
/// named no file, and the interface has a profile.
pub open spec fn default_applies(opts: &BackendOpts, interface: Interface) -> bool {
    opts.files() == 0 && interface.profile() is Some
}

/// The handle that ends a resolution of `opts` in success.
pub open spec fn handle<B>(opts: &BackendOpts, backend: Backend<B>, layers: Seq<Layer>) -> Handle<
    B,
> {
    Handle { interface: opts.interface@, backend, layers }
}

/// The stage once every user file is applied: the interface name is
/// classified.  An unknown name ends the resolution, the empty name ends it
/// with the stub backend, any other name asks for its constructor.
pub open spec fn selected<B, E>(opts: &BackendOpts) -> Stage<B, E> {
    match Interface::named(opts.interface@) {
        None => Stage::Finished { result: Err(Failure::UnknownInterface(opts.interface@)) },
        Some(Interface::Empty) => Stage::Finished {
            result: Ok(handle(opts, Backend::Empty, user_layers(opts))),
        },
        Some(interface) => Stage::Constructing { interface },
    }
}

/// The stage once the first `applied` user files are applied.
pub open spec fn configured<B, E>(opts: &BackendOpts, applied: nat) -> Stage<B, E> {
    if applied < opts.files() {
        Stage::Configuring { index: applied }
    } else {
        selected(opts)
    }
}

/// The stage in which a resolution of `opts` begins.
pub open spec fn start<B, E>(opts: &BackendOpts) -> Stage<B, E> {
    configured(opts, 0)
}

/// The stage after the user file at `index` was tried.
pub open spec fn after_config<B, E>(
    opts: &BackendOpts,
    index: nat,
    outcome: Result<(), E>,
) -> Stage<B, E> {
    match outcome {
        Ok(_) => configured(opts, index + 1),
        Err(cause) => Stage::Finished {
            result: Err(
                Failure::ConfigApplicationFailed {
                    source: Layer::UserFile(opts.file(index as int)),
                    cause,
                },
            ),
        },
    }
}

/// The stage after the constructor of `interface` was tried.
pub open spec fn after_construct<B, E>(
    opts: &BackendOpts,
    interface: Interface,
    outcome: Result<B, E>,
) -> Stage<B, E> {
    match outcome {
        Ok(backend) => if default_applies(opts, interface) {
            Stage::Defaulting { backend, profile: interface.profile()->0 }
        } else {
            Stage::Finished {
                result: Ok(handle(opts, Backend::Device(backend), user_layers(opts))),
            }
        },
        Err(cause) => Stage::Finished {
            result: Err(Failure::ConstructionFailed { interface, cause }),
        },
    }
}

/// The stage after the built-in `profile` was tried.
pub open spec fn after_default<B, E>(
    opts: &BackendOpts,
    backend: B,
    profile: Seq<char>,
    outcome: Result<(), E>,
) -> Stage<B, E> {
    match outcome {
        Ok(_) => Stage::Finished {
            result: Ok(handle(opts, Backend::Device(backend), seq![Layer::Builtin(profile)])),
        },
        Err(cause) => Stage::Finished {
            result: Err(
                Failure::ConfigApplicationFailed { source: Layer::Builtin(profile), cause },
            ),
        },
    }
}

impl<B, E> Stage<B, E> {
    /// The call that this stage waits for.
    pub open spec fn pending(self, opts: &BackendOpts) -> Option<Call> {
        match self {
            Stage::Configuring { index } => Some(
                Call::ApplyConfig(Layer::UserFile(opts.file(index as int))),
            ),
            Stage::Constructing { interface } => Some(Call::Construct(interface)),
            Stage::Defaulting { backend, profile } => Some(
                Call::ApplyConfig(Layer::Builtin(profile)),
            ),
            Stage::Finished { result } => None,
        }
    }

    /// The stage that follows when `world` answers the pending call.
    pub open spec fn answered(self, opts: &BackendOpts, world: World<B, E>) -> Stage<B, E> {
        match self {
            Stage::Configuring { index } => after_config(opts, index, (world.config)(index)),
            Stage::Constructing { interface } => after_construct(opts, interface, world.construct),
            Stage::Defaulting { backend, profile } => after_default(
                opts,
                backend,
                profile,
                world.profile,
            ),
            Stage::Finished { result } => self,
        }
    }

    /// A measure that every answer lowers, so that a resolution ends.
    pub open spec fn distance(self, opts: &BackendOpts) -> nat {
        match self {
            Stage::Configuring { index } => if index < opts.files() {
                (opts.files() - index + 2) as nat
            } else {
                3
            },
            Stage::Constructing { interface } => 2,
            Stage::Defaulting { backend, profile } => 1,
            Stage::Finished { result } => 0,
        }
    }
}

/// What each collaborator answers during one resolution.
pub struct World<B, E> {
    /// The answer to applying the user file at a position.
    pub config: spec_fn(nat) -> Result<(), E>,
    /// The answer of the backend constructor.
    pub construct: Result<B, E>,
    /// The answer to applying the built-in profile.
    pub profile: Result<(), E>,
}

/// A resolution from beginning to end: the calls made, in order, and the result.
pub struct Run<B, E> {
    pub calls: Seq<Call>,
    pub result: Result<Handle<B>, Failure<E>>,
}

/// What is left of a resolution of `opts` that stands at `stage`, when `world`
/// answers every call.
pub open spec fn run<B, E>(opts: &BackendOpts, stage: Stage<B, E>, world: World<B, E>) -> Run<B, E>
    decreases stage.distance(opts),
{
    match stage {
        Stage::Finished { result } => Run { calls: Seq::empty(), result },
        _ => {
            let rest = run(opts, stage.answered(opts, world), world);
            Run { calls: seq![stage.pending(opts)->0] + rest.calls, result: rest.result }
        },
    }
}

/// A whole resolution of `opts` in which `world` answers every call.
pub open spec fn resolution<B, E>(opts: &BackendOpts, world: World<B, E>) -> Run<B, E> {
    run(opts, start(opts), world)
}

} // verus!
