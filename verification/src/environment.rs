//! The environment that a resolution builds up, and the handle it ends in.
//!
//! The builder keeps the interface name and the ordered record of the
//! configuration sources applied so far.  Finalising it binds that record to a
//! backend instance; the builder is consumed by the call and cannot be used
//! again.

use vstd::prelude::*;

verus! {

/// Where a layer of configuration comes from.
#[derive(Clone, Debug, PartialEq, Eq)]
pub enum ConfigSource {
    /// A file that the user named.
    UserFile(String),
    /// A profile bundled with the library, named by its reserved path.
    Builtin(&'static str),
}

/// What a `ConfigSource` stands for.
pub enum Layer {
    UserFile(Seq<char>),
    Builtin(Seq<char>),
}

impl View for ConfigSource {
    type V = Layer;

    open spec fn view(&self) -> Layer {
        match *self {
            ConfigSource::UserFile(path) => Layer::UserFile(path@),
            ConfigSource::Builtin(path) => Layer::Builtin(path@),
        }
    }
}

impl Layer {
    /// The path that names the source.
    pub open spec fn path(self) -> Seq<char> {
        match self {
            Layer::UserFile(path) => path,
            Layer::Builtin(path) => path,
        }
    }
}

impl ConfigSource {
    /// The path that names the source: a user's path, or the reserved path
    /// of a bundled profile.
    pub fn path(&self) -> (path: &str)
        ensures
            path@ == self@.path(),
    {
        match self {
            ConfigSource::UserFile(path) => path.as_str(),
            ConfigSource::Builtin(path) => path,
        }
    }
}

/// The layers that a list of sources stands for, in the same order.
pub open spec fn layers_of(sources: Seq<ConfigSource>) -> Seq<Layer> {
    sources.map_values(|s: ConfigSource| s@)
}

/// The backend instance that a handle owns.
#[derive(Clone, Debug, PartialEq, Eq)]
pub enum Backend<B> {
    /// The stub that stands in when no hardware was asked for.
    Empty,
    /// An instance that a backend constructor produced.
    Device(B),
}

/// What a `TransportWrapperBuilder` stands for.
pub struct Environment {
    pub interface: Seq<char>,
    pub layers: Seq<Layer>,
}

/// What a `TransportWrapper` stands for.
pub struct Handle<B> {
    pub interface: Seq<char>,
    pub backend: Backend<B>,
    pub layers: Seq<Layer>,
}

/// Accumulates configuration for one resolution.
#[derive(Debug)]
pub struct TransportWrapperBuilder {
    interface: String,
    layers: Vec<ConfigSource>,
}

/// A backend instance together with the configuration layered onto it.
#[derive(Debug, PartialEq, Eq)]
pub struct TransportWrapper<B> {
    pub interface: String,
    pub backend: Backend<B>,
    pub layers: Vec<ConfigSource>,
}

impl<B> View for TransportWrapper<B> {
    type V = Handle<B>;

    open spec fn view(&self) -> Handle<B> {
        Handle {
            interface: self.interface@,
            backend: self.backend,
            layers: layers_of(self.layers@),
        }
    }
}

impl View for TransportWrapperBuilder {
    type V = Environment;

    closed spec fn view(&self) -> Environment {
        Environment { interface: self.interface@, layers: layers_of(self.layers@) }
    }
}

impl TransportWrapperBuilder {
    /// A fresh environment for `interface`, with nothing applied.
    pub fn new(interface: String) -> (env: TransportWrapperBuilder)
        ensures
            env@ == (Environment { interface: interface@, layers: Seq::empty() }),
    {
        let env = TransportWrapperBuilder { interface, layers: Vec::new() };
        assert(layers_of(env.layers@) =~= Seq::empty());
        env
    }

    /// The interface that the environment was made for.
    pub fn get_interface(&self) -> (name: &str)
        ensures
            name@ == self@.interface,
    {
        self.interface.as_str()
    }

    /// Records that `source` was applied on top of everything applied before.
    pub fn add_layer(&mut self, source: ConfigSource)
        ensures
            final(self)@ == (Environment {
                interface: old(self)@.interface,
                layers: old(self)@.layers.push(source@),
            }),
    {
        proof {
            self.layers@.lemma_push_map_commute(|s: ConfigSource| s@, source);
        }
        self.layers.push(source);
    }

    /// Binds the environment to `backend`.
    pub fn build<B>(self, backend: Backend<B>) -> (handle: TransportWrapper<B>)
        ensures
            handle@ == (Handle {
                interface: self@.interface,
                backend: backend,
                layers: self@.layers,
            }),
    {
        TransportWrapper { interface: self.interface, backend, layers: self.layers }
    }
}

} // verus!
