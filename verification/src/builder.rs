//! The builder: the short-lived value that collects plugin registrations
//! before the runtime is started.

use vstd::prelude::*;
use crate::plugin::Plugin;

verus! {

/// Collects the plugins to start the runtime with. Plugins can only be added,
/// one after the other; the order of registration is kept.
#[derive(Debug)]
pub struct Builder {
    plugins: Vec<Plugin>,
}

impl View for Builder {
    type V = Seq<Plugin>;

    /// The plugins registered so far, first registration first.
    closed spec fn view(&self) -> Seq<Plugin> {
        self.plugins@
    }
}

impl Builder {
    /// A builder with nothing registered.
    pub fn new() -> (builder: Builder)
        ensures
            builder@ == Seq::<Plugin>::empty(),
    {
        Builder { plugins: Vec::new() }
    }

    /// Registers `plugin` behind those already there and hands the builder on.
    pub fn plugin(self, plugin: Plugin) -> (builder: Builder)
        ensures
            builder@ == self@.push(plugin),
    {
        let mut plugins = self.plugins;
        plugins.push(plugin);
        Builder { plugins }
    }

    /// Registers `plugin` behind those already there, in place.
    pub fn register(&mut self, plugin: Plugin)
        ensures
            final(self)@ == old(self)@.push(plugin),
    {
        self.plugins.push(plugin);
    }

    /// The registered plugins, first registration first.
    pub fn plugins(&self) -> (plugins: &Vec<Plugin>)
        ensures
            plugins@ == self@,
    {
        &self.plugins
    }
}

impl Default for Builder {
    /// The default builder has nothing registered.
    fn default() -> (builder: Builder)
        ensures
            builder@ == Seq::<Plugin>::empty(),
    {
        Builder::new()
    }
}

} // verus!
