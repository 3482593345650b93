//! What holds of every resolution.
//!
//! `outline` says in closed form what a resolution comes to, and
//! `theorem_resolution_is_outline` proves that driving the stages against any
//! world comes to exactly that.  The laws after it are read off the outline.

use vstd::prelude::*;
use crate::environment::{Backend, Handle, Layer};
use crate::error::Failure;
use crate::interface::Interface;
use crate::model::{
    configured,
    default_applies,
    handle,
    resolution,
    run,
    selected,
    user_calls,
    user_layers,
    Call,
    Run,
    World,
};
use crate::options::BackendOpts;

verus! {

/// The position of the first user file, from `from` on, that fails to apply;
/// the number of user files if none fails.
pub open spec fn first_failure<B, E>(opts: &BackendOpts, world: World<B, E>, from: nat) -> nat
    decreases opts.files() - from,
{
    if from >= opts.files() {
        opts.files()
    } else if (world.config)(from) is Err {
        from
    } else {
        first_failure(opts, world, from + 1)
    }
}

/// Whether every user file applies.
pub open spec fn all_applied<B, E>(opts: &BackendOpts, world: World<B, E>) -> bool {
    forall|i: nat| i < opts.files() ==> (#[trigger] (world.config)(i)) is Ok
}

/// What a resolution comes to once every user file is applied.
pub open spec fn conclusion<B, E>(opts: &BackendOpts, world: World<B, E>) -> Run<B, E> {
    match Interface::named(opts.interface@) {
        None => Run {
            calls: Seq::empty(),
            result: Err(Failure::UnknownInterface(opts.interface@)),
        },
        Some(Interface::Empty) => Run {
            calls: Seq::empty(),
            result: Ok(handle(opts, Backend::Empty, user_layers(opts))),
        },
        Some(interface) => match world.construct {
            Err(cause) => Run {
                calls: seq![Call::Construct(interface)],
                result: Err(Failure::ConstructionFailed { interface, cause }),
            },
            Ok(backend) => if default_applies(opts, interface) {
                let source = Layer::Builtin(interface.profile()->0);
                Run {
                    calls: seq![Call::Construct(interface), Call::ApplyConfig(source)],
                    result: match world.profile {
                        Ok(_) => Ok(handle(opts, Backend::Device(backend), seq![source])),
                        Err(cause) => Err(Failure::ConfigApplicationFailed { source, cause }),
                    },
                }
            } else {
                Run {
                    calls: seq![Call::Construct(interface)],
                    result: Ok(handle(opts, Backend::Device(backend), user_layers(opts))),
                }
            },
        },
    }
}

/// What is left of a resolution once the user files before `from` are
/// applied: the user files from `from` on are applied in order, up to and
/// including the first that fails, which ends the resolution; if none fails,
/// the conclusion follows.
pub open spec fn outline_from<B, E>(opts: &BackendOpts, world: World<B, E>, from: nat) -> Run<
    B,
    E,
> {
    let stop = first_failure(opts, world, from);
    if stop < opts.files() {
        Run {
            calls: user_calls(opts).subrange(from as int, stop as int + 1),
            result: Err(
                Failure::ConfigApplicationFailed {
                    source: Layer::UserFile(opts.file(stop as int)),
                    cause: (world.config)(stop)->Err_0,
                },
            ),
        }
    } else {
        let end = conclusion(opts, world);
        Run {
            calls: user_calls(opts).subrange(from as int, opts.files() as int) + end.calls,
            result: end.result,
        }
    }
}

/// What a whole resolution comes to.
pub open spec fn outline<B, E>(opts: &BackendOpts, world: World<B, E>) -> Run<B, E> {
    outline_from(opts, world, 0)
}

/// The first failure lies at or after `from`, it is a failure, and every
/// file between `from` and it applies.
pub proof fn lemma_first_failure<B, E>(opts: &BackendOpts, world: World<B, E>, from: nat)
    requires
        from <= opts.files(),
    ensures
        from <= first_failure(opts, world, from) <= opts.files(),
        first_failure(opts, world, from) < opts.files() ==> (world.config)(
            first_failure(opts, world, from),
        ) is Err,
        forall|i: nat|
            from <= i < first_failure(opts, world, from) ==> (#[trigger] (world.config)(i)) is Ok,
    decreases opts.files() - from,
{
    if from < opts.files() && (world.config)(from) is Ok {
        lemma_first_failure(opts, world, from + 1);
    }
}

/// Driving the stages from the selection of the backend on comes to the
/// conclusion.
pub proof fn lemma_selected_is_conclusion<B, E>(opts: &BackendOpts, world: World<B, E>)
    ensures
        run(opts, selected(opts), world) == conclusion(opts, world),
{
    reveal_with_fuel(run, 4);
    let driven = run(opts, selected(opts), world);
    let stated = conclusion(opts, world);
    assert(driven.calls =~= stated.calls);
}

/// Driving the stages once the user files before `from` are applied comes to
/// the outline from there.
pub proof fn lemma_configured_is_outline<B, E>(opts: &BackendOpts, world: World<B, E>, from: nat)
    requires
        from <= opts.files(),
    ensures
        run(opts, configured(opts, from), world) == outline_from(opts, world, from),
    decreases opts.files() - from,
{
    let driven = run(opts, configured(opts, from), world);
    let stated = outline_from(opts, world, from);
    if from == opts.files() {
        lemma_selected_is_conclusion(opts, world);
    } else {
        match (world.config)(from) {
            Ok(_) => {
                lemma_configured_is_outline(opts, world, from + 1);
                lemma_first_failure(opts, world, from + 1);
                assert(driven.calls =~= stated.calls);
            },
            Err(_) => {
                reveal_with_fuel(run, 2);
                assert(driven.calls =~= stated.calls);
            },
        }
    }
}

/// Driving the stages against any world comes to exactly the outline.
pub proof fn theorem_resolution_is_outline<B, E>(opts: &BackendOpts, world: World<B, E>)
    ensures
        resolution(opts, world) == outline(opts, world),
{
    lemma_configured_is_outline(opts, world, 0);
}

/// The first user file that fails to apply ends the resolution, whatever the
/// interface name: the failure is the one that the file met, no later file
/// is tried, and nothing is constructed.
pub proof fn law_failing_user_file_is_final<B, E>(opts: &BackendOpts, world: World<B, E>)
    requires
        !all_applied(opts, world),
    ensures
        first_failure(opts, world, 0) < opts.files(),
        resolution(opts, world).calls == user_calls(opts).take(
            first_failure(opts, world, 0) as int + 1,
        ),
        resolution(opts, world).result == Err::<Handle<B>, Failure<E>>(
            Failure::ConfigApplicationFailed {
                source: Layer::UserFile(opts.file(first_failure(opts, world, 0) as int)),
                cause: (world.config)(first_failure(opts, world, 0))->Err_0,
            },
        ),
{
    theorem_resolution_is_outline(opts, world);
    lemma_first_failure(opts, world, 0);
}

/// A constructor that fails ends the resolution with its own failure, and
/// nothing is applied after it.
pub proof fn law_failed_construction_is_final<B, E>(
    opts: &BackendOpts,
    world: World<B, E>,
    interface: Interface,
)
    requires
        all_applied(opts, world),
        Interface::named(opts.interface@) == Some(interface),
        interface != Interface::Empty,
        world.construct is Err,
    ensures
        resolution(opts, world).calls == user_calls(opts).push(Call::Construct(interface)),
        resolution(opts, world).result == Err::<Handle<B>, Failure<E>>(
            Failure::ConstructionFailed { interface, cause: world.construct->Err_0 },
        ),
{
    theorem_resolution_is_outline(opts, world);
    lemma_first_failure(opts, world, 0);
}

/// A name that no interface bears never reaches a backend constructor, and
/// the resolution fails.  User files are applied before the name is looked
/// at: when all of them apply, the failure is `UnknownInterface` with the
/// name as requested; otherwise it is that of the first file that failed.
pub proof fn law_unknown_interface<B, E>(opts: &BackendOpts, world: World<B, E>)
    requires
        Interface::named(opts.interface@) is None,
    ensures
        forall|i: int|
            0 <= i < resolution(opts, world).calls.len() ==> !(#[trigger] resolution(
                opts,
                world,
            ).calls[i] is Construct),
        all_applied(opts, world) ==> resolution(opts, world).result == Err::<
            Handle<B>,
            Failure<E>,
        >(Failure::UnknownInterface(opts.interface@)),
        !all_applied(opts, world) ==> resolution(opts, world).result
            is Err && resolution(opts, world).result->Err_0 is ConfigApplicationFailed,
{
    theorem_resolution_is_outline(opts, world);
    lemma_first_failure(opts, world, 0);
}

/// The empty interface name yields the stub backend, whatever the other
/// options hold, and no constructor is invoked: the calls are the user files
/// and nothing else.  This is stated of the worlds in which every user file
/// applies.
pub proof fn law_empty_interface<B, E>(opts: &BackendOpts, world: World<B, E>)
    requires
        opts.interface@ == ""@,
        all_applied(opts, world),
    ensures
        resolution(opts, world).result == Ok::<Handle<B>, Failure<E>>(
            handle(opts, Backend::Empty, user_layers(opts)),
        ),
        resolution(opts, world).calls == user_calls(opts),
{
    theorem_resolution_is_outline(opts, world);
    lemma_first_failure(opts, world, 0);
}

/// Where the user names any file at all, no built-in profile is applied, and
/// a handle holds the user's layers only.
pub proof fn law_user_files_suppress_default<B, E>(opts: &BackendOpts, world: World<B, E>)
    requires
        opts.files() > 0,
    ensures
        forall|i: int|
            0 <= i < resolution(opts, world).calls.len() ==> !(#[trigger] resolution(
                opts,
                world,
            ).calls[i] matches Call::ApplyConfig(Layer::Builtin(_))),
        resolution(opts, world).result matches Ok(made) ==> made.layers == user_layers(opts),
{
    theorem_resolution_is_outline(opts, world);
    lemma_first_failure(opts, world, 0);
}

/// With no user file, an interface that has a built-in profile gets that
/// profile applied exactly once, right after its backend is constructed, and
/// nothing else is called.  This is stated of the worlds in which the
/// constructor succeeds.
pub proof fn law_default_follows_construction<B, E>(
    opts: &BackendOpts,
    world: World<B, E>,
    interface: Interface,
    profile: Seq<char>,
)
    requires
        opts.files() == 0,
        Interface::named(opts.interface@) == Some(interface),
        interface.profile() == Some(profile),
        world.construct is Ok,
    ensures
        resolution(opts, world).calls == seq![
            Call::Construct(interface),
            Call::ApplyConfig(Layer::Builtin(profile)),
        ],
        world.profile is Ok ==> resolution(opts, world).result == Ok::<Handle<B>, Failure<E>>(
            handle(
                opts,
                Backend::Device(world.construct->Ok_0),
                seq![Layer::Builtin(profile)],
            ),
        ),
        world.profile is Err ==> resolution(opts, world).result == Err::<Handle<B>, Failure<E>>(
            Failure::ConfigApplicationFailed {
                source: Layer::Builtin(profile),
                cause: world.profile->Err_0,
            },
        ),
{
    theorem_resolution_is_outline(opts, world);
}

/// With no user file and an interface that has no built-in profile, no
/// configuration is applied at all, and a handle holds no layer.
pub proof fn law_no_profile_no_configuration<B, E>(
    opts: &BackendOpts,
    world: World<B, E>,
    interface: Interface,
)
    requires
        opts.files() == 0,
        Interface::named(opts.interface@) == Some(interface),
        interface.profile() is None,
    ensures
        forall|i: int|
            0 <= i < resolution(opts, world).calls.len() ==> !(#[trigger] resolution(
                opts,
                world,
            ).calls[i] is ApplyConfig),
        resolution(opts, world).result matches Ok(made) ==> made.layers.len() == 0,
{
    theorem_resolution_is_outline(opts, world);
}

/// User files are applied in the order in which they are listed, each once,
/// ahead of every other call.  When all of them apply, a handle that holds
/// them holds them in that order; otherwise the first that fails is the last
/// call of the resolution.
pub proof fn law_user_files_in_order<B, E>(opts: &BackendOpts, world: World<B, E>)
    ensures
        all_applied(opts, world) ==> user_calls(opts).is_prefix_of(resolution(opts, world).calls),
        all_applied(opts, world) ==> forall|i: int|
            opts.files() <= i < resolution(opts, world).calls.len() ==> !(#[trigger] resolution(
                opts,
                world,
            ).calls[i] matches Call::ApplyConfig(Layer::UserFile(_))),
        !all_applied(opts, world) ==> resolution(opts, world).calls == user_calls(opts).take(
            first_failure(opts, world, 0) as int + 1,
        ),
        resolution(opts, world).result matches Ok(made) ==> opts.files() > 0 ==> made.layers
            == user_layers(opts),
{
    theorem_resolution_is_outline(opts, world);
    lemma_first_failure(opts, world, 0);
}

/// Whatever is called belongs to the interface that the options name.  A
/// constructor that is invoked is the one of that interface, and every user
/// file has applied before it.  A built-in profile that is applied is the one
/// the table holds for that interface, the user named no file, and the
/// constructor ran just before.
pub proof fn law_calls_belong_to_the_interface<B, E>(
    opts: &BackendOpts,
    world: World<B, E>,
    i: int,
)
    requires
        0 <= i < resolution(opts, world).calls.len(),
    ensures
        resolution(opts, world).calls[i] matches Call::Construct(interface) ==> {
            &&& Interface::named(opts.interface@) == Some(interface)
            &&& interface != Interface::Empty
            &&& all_applied(opts, world)
            &&& i == opts.files()
        },
        resolution(opts, world).calls[i] matches Call::ApplyConfig(Layer::Builtin(profile)) ==> {
            &&& Interface::named(opts.interface@) matches Some(interface)
            &&& interface.profile() == Some(profile)
            &&& opts.files() == 0
            &&& world.construct is Ok
            &&& i == 1
            &&& resolution(opts, world).calls[0] == Call::Construct(interface)
        },
        resolution(opts, world).calls[i] matches Call::ApplyConfig(Layer::UserFile(path)) ==> {
            &&& i < opts.files()
            &&& path == opts.file(i)
        },
{
    theorem_resolution_is_outline(opts, world);
    lemma_first_failure(opts, world, 0);
}

/// A resolution invokes at most one backend constructor, and a handle with a
/// device in it comes from exactly one.
pub proof fn law_one_constructor<B, E>(opts: &BackendOpts, world: World<B, E>)
    ensures
        forall|i: int, j: int|
            0 <= i < j < resolution(opts, world).calls.len() ==> !(#[trigger] resolution(
                opts,
                world,
            ).calls[i] is Construct && #[trigger] resolution(opts, world).calls[j] is Construct),
        resolution(opts, world).result matches Ok(made) ==> (made.backend is Device
            <==> exists|i: int|
            0 <= i < resolution(opts, world).calls.len() && #[trigger] resolution(
                opts,
                world,
            ).calls[i] is Construct),
{
    theorem_resolution_is_outline(opts, world);
    lemma_first_failure(opts, world, 0);
    let run = resolution(opts, world);
    if run.result is Ok && run.result->Ok_0.backend is Device {
        assert(run.calls[opts.files() as int] is Construct);
    }
}

} // verus!
