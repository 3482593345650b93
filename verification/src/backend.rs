//! Creating a backend in one call.
//!
//! `create` carries a resolution from beginning to end.  It makes every call
//! that the resolution asks for on the `Collaborators` it is given, in the
//! order asked, and hands each answer straight back.  Its contract names the
//! collaborators' answers through `call_ensures`, so nothing has to be
//! assumed of an implementation.

use vstd::prelude::*;
use crate::environment::{Backend, ConfigSource, Handle, Layer, TransportWrapper};
use crate::error::{Error, Failure};
use crate::interface::Interface;
use crate::laws::{law_empty_interface, law_unknown_interface};
use crate::model::{handle, resolution, run, user_layers, Call, Stage, World};
use crate::options::BackendOpts;
use crate::resolver::{begin, outcome_of, ConstructRequest, Resolution};

verus! {

/// What a resolution needs done for it: configuration applied and backends
/// constructed.  Nothing is assumed of an implementation; whatever it
/// answers, `create` handles.
pub trait Collaborators {
    /// A backend instance.
    type Backend;

    /// What a collaborator reports when it fails.
    type Failure;

    /// Applies `source` on top of what the environment of the resolution in
    /// progress already holds.
    fn apply_config(&mut self, source: &ConfigSource) -> Result<(), Self::Failure>;

    /// Invokes the constructor that `request` names, with the options that it
    /// carries.
    fn construct(&mut self, request: ConstructRequest<'_>) -> Result<Self::Backend, Self::Failure>;
}

/// Whether `answer` is what collaborators of type `C` gave when asked to
/// apply a source that stands for `layer`.
pub open spec fn applied<C: Collaborators>(layer: Layer, answer: Result<(), C::Failure>) -> bool {
    exists|with: &mut C, source: ConfigSource| #[trigger]
        call_ensures(C::apply_config, (with, &source), answer) && source@ == layer
}

/// Whether `answer` is what collaborators of type `C` gave when handed
/// `request`.
pub open spec fn constructed<C: Collaborators>(
    request: ConstructRequest<'_>,
    answer: Result<C::Backend, C::Failure>,
) -> bool {
    exists|with: &mut C| #[trigger] call_ensures(C::construct, (with, request), answer)
}

/// Whether `call`, the one at position `at` of a resolution of `opts`, was
/// put to collaborators of type `C` and got from them the answer that `world`
/// holds for it.  A constructor is handed the request routed for its
/// interface.
pub open spec fn put_to<C: Collaborators>(
    opts: &BackendOpts,
    world: World<C::Backend, C::Failure>,
    call: Call,
    at: int,
) -> bool {
    match call {
        Call::ApplyConfig(Layer::UserFile(path)) => applied::<C>(
            Layer::UserFile(path),
            (world.config)(at as nat),
        ),
        Call::ApplyConfig(Layer::Builtin(path)) => applied::<C>(
            Layer::Builtin(path),
            world.profile,
        ),
        Call::Construct(interface) => {
            &&& ConstructRequest::routed(opts, interface) matches Some(request)
            &&& constructed::<C>(request, world.construct)
        },
    }
}

/// Whether `world` is what collaborators of type `C` turned out to be during
/// a resolution of `opts`: every call of the resolution was put to them, and
/// the answers of the world are theirs.
pub open spec fn witnessed<C: Collaborators>(
    opts: &BackendOpts,
    world: World<C::Backend, C::Failure>,
) -> bool {
    forall|i: int|
        0 <= i < resolution(opts, world).calls.len() ==> put_to::<C>(
            opts,
            world,
            #[trigger] resolution(opts, world).calls[i],
            i,
        )
}

/// The answers that the collaborators have given so far.
struct Answers<B, E> {
    /// One answer for each user file tried, in order.
    config: Seq<Result<(), E>>,
    /// The constructor's answer, once it was invoked.
    construct: Option<Result<B, E>>,
    /// The answer to the built-in profile, once it was tried.
    profile: Option<Result<(), E>>,
}

impl<B, E> World<B, E> {
    /// Whether the world answers as `answers` records.
    spec fn agrees(self, answers: Answers<B, E>) -> bool {
        &&& forall|i: nat| i < answers.config.len() ==> (self.config)(i) == answers.config[i as int]
        &&& answers.construct matches Some(answer) ==> self.construct == answer
        &&& answers.profile matches Some(answer) ==> self.profile == answer
    }
}

impl<B, E> Answers<B, E> {
    /// Whether no call that `stage` or a later stage waits for is answered
    /// yet, `made` calls having been made.
    spec fn open_at(self, stage: Stage<B, E>, made: Seq<Call>) -> bool {
        match stage {
            Stage::Configuring { index } => {
                &&& index == self.config.len()
                &&& index == made.len()
                &&& self.construct is None
                &&& self.profile is None
            },
            Stage::Constructing { interface } => self.construct is None && self.profile is None,
            Stage::Defaulting { backend, profile } => self.profile is None,
            Stage::Finished { result } => true,
        }
    }

    /// A world that answers as recorded, and arbitrarily where nothing is
    /// recorded.
    spec fn some_world(self) -> World<B, E> {
        World {
            config: |i: nat|
                if i < self.config.len() {
                    self.config[i as int]
                } else {
                    Ok(())
                },
            construct: match self.construct {
                Some(answer) => answer,
                None => arbitrary(),
            },
            profile: match self.profile {
                Some(answer) => answer,
                None => Ok(()),
            },
        }
    }
}

/// Whether `call`, made as the one at position `at`, got the answer that
/// `answers` records for it from collaborators of type `C`.
spec fn recorded<C: Collaborators>(
    opts: &BackendOpts,
    answers: Answers<C::Backend, C::Failure>,
    call: Call,
    at: int,
) -> bool {
    match call {
        Call::ApplyConfig(Layer::UserFile(path)) => {
            &&& 0 <= at < answers.config.len()
            &&& applied::<C>(Layer::UserFile(path), answers.config[at])
        },
        Call::ApplyConfig(Layer::Builtin(path)) => {
            &&& answers.profile matches Some(answer)
            &&& applied::<C>(Layer::Builtin(path), answer)
        },
        Call::Construct(interface) => {
            &&& answers.construct matches Some(answer)
            &&& ConstructRequest::routed(opts, interface) matches Some(request)
            &&& constructed::<C>(request, answer)
        },
    }
}

/// Whether a resolution of `opts` that made the calls `made` and got
/// `answers` stands at `stage`: in every world that agrees with the answers,
/// the whole resolution is the calls made followed by what is left from
/// `stage`.
spec fn on_course<B, E>(
    opts: &BackendOpts,
    stage: Stage<B, E>,
    made: Seq<Call>,
    answers: Answers<B, E>,
) -> bool {
    forall|world: World<B, E>| #[trigger]
        world.agrees(answers) ==> {
            &&& resolution(opts, world).result == run(opts, stage, world).result
            &&& resolution(opts, world).calls == made + run(opts, stage, world).calls
        }
}

/// Creates the backend that `args` asks for.
///
/// The result is what the resolution of `args` comes to in some world, and
/// that world is what `with` turned out to be: each call of the resolution
/// was put to `with`, a constructor with the request routed for its
/// interface, and the answers that decide the result are those that `with`
/// gave.  Where `args` names no user file and no interface with a
/// constructor, no collaborator decides anything and the result is fixed:
/// the stub backend for the empty name, `UnknownInterface` for a name that
/// no interface bears.  Such a name never yields a handle.
pub fn create<C: Collaborators>(args: &BackendOpts, with: &mut C) -> (result: Result<
    TransportWrapper<C::Backend>,
    Error<C::Failure>,
>)
    ensures
        exists|world: World<C::Backend, C::Failure>|
            {
                &&& outcome_of(result) == #[trigger] resolution(args, world).result
                &&& witnessed::<C>(args, world)
            },
        args.files() == 0 && args.interface@ == ""@ ==> outcome_of(result) == Ok::<
            Handle<C::Backend>,
            Failure<C::Failure>,
        >(handle(args, Backend::Empty, Seq::empty())),
        args.files() == 0 && Interface::named(args.interface@) is None ==> outcome_of(result)
            == Err::<Handle<C::Backend>, Failure<C::Failure>>(
            Failure::UnknownInterface(args.interface@),
        ),
        Interface::named(args.interface@) is None ==> result is Err,
{
    let mut at: Resolution<'_, C::Backend, C::Failure> = begin(args);
    let ghost mut made: Seq<Call> = Seq::empty();
    let ghost mut answers = Answers::<C::Backend, C::Failure> {
        config: Seq::empty(),
        construct: None,
        profile: None,
    };
    loop
        invariant
            at.serves(args),
            answers.open_at(at.stage(), made),
            on_course(args, at.stage(), made, answers),
            forall|i: int|
                0 <= i < made.len() ==> recorded::<C>(args, answers, #[trigger] made[i], i),
        decreases at.stage().distance(args),
    {
        let ghost before = at.stage();
        let ghost earlier = answers;
        let ghost sofar = made;
        match at {
            Resolution::ApplyConfig(step) => {
                let source = step.source();
                let outcome = with.apply_config(&source);
                proof {
                    assert(applied::<C>(source@, outcome));
                    answers.config = answers.config.push(outcome);
                }
                at = step.resume(outcome);
            },
            Resolution::Construct(step) => {
                let request = step.request();
                let outcome = with.construct(request);
                proof {
                    assert(constructed::<C>(request, outcome));
                    answers.construct = Some(outcome);
                }
                at = step.resume(outcome);
            },
            Resolution::ApplyDefault(step) => {
                let source = step.source();
                let outcome = with.apply_config(&source);
                proof {
                    assert(applied::<C>(source@, outcome));
                    answers.profile = Some(outcome);
                }
                at = step.resume(outcome);
            },
            Resolution::Done(result) => {
                proof {
                    let world = answers.some_world();
                    assert(world.agrees(answers));
                    assert(resolution(args, world).calls =~= made);
                    assert forall|i: int|
                        0 <= i < resolution(args, world).calls.len() implies put_to::<C>(
                        args,
                        world,
                        #[trigger] resolution(args, world).calls[i],
                        i,
                    ) by {
                        assert(recorded::<C>(args, answers, made[i], i));
                    }
                    if args.files() == 0 && args.interface@ == ""@ {
                        law_empty_interface(args, world);
                        assert(user_layers(args) =~= Seq::empty());
                    }
                    if Interface::named(args.interface@) is None {
                        law_unknown_interface(args, world);
                    }
                }
                return result;
            },
        }
        proof {
            made = made.push(before.pending(args)->0);
            assert forall|world: World<C::Backend, C::Failure>| #[trigger]
                world.agrees(answers) implies {
                &&& resolution(args, world).result == run(args, at.stage(), world).result
                &&& resolution(args, world).calls == made + run(args, at.stage(), world).calls
            } by {
                assert forall|i: nat| i < earlier.config.len() implies (world.config)(i)
                    == earlier.config[i as int] by {
                    assert(answers.config[i as int] == earlier.config[i as int]);
                }
                assert(world.agrees(earlier));
                if before is Configuring {
                    let index: nat = before->index;
                    assert((world.config)(index) == answers.config[index as int]);
                }
                assert(before.answered(args, world) == at.stage());
                assert(resolution(args, world).calls =~= made + run(
                    args,
                    at.stage(),
                    world,
                ).calls);
            }
            assert forall|i: int| 0 <= i < made.len() implies recorded::<C>(
                args,
                answers,
                #[trigger] made[i],
                i,
            ) by {
                if i < sofar.len() {
                    assert(recorded::<C>(args, earlier, sofar[i], i));
                }
            }
        }
    }
}

} // verus!
