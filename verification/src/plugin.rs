//! The capability plugins of the shell and the platforms each one is meant for.

use vstd::prelude::*;
use crate::platform::Platform;

verus! {

/// A capability that the host runtime can be given at startup.
#[derive(Clone, Copy, Debug, PartialEq, Eq, Structural)]
pub enum Plugin {
    /// Information about the operating system.
    OsInfo,
    /// Control over the process: exit and restart.
    Process,
    /// Opening of files and links outside the application.
    Opener,
    /// Search for, and installation of, new versions of the application.
    Updater,
}

impl Plugin {
    /// The platforms a plugin is registered on: the updater on the desktop
    /// family only, each of the others everywhere.
    pub open spec fn available_on(self, platform: Platform) -> bool {
        self is Updater ==> platform.desktop()
    }

    /// Tells whether this plugin is registered on `platform`.
    #[verifier::when_used_as_spec(available_on)]
    pub fn is_available_on(self, platform: Platform) -> (answer: bool)
        ensures
            answer == self.available_on(platform),
    {
        match self {
            Plugin::Updater => platform.is_desktop(),
            Plugin::OsInfo | Plugin::Process | Plugin::Opener => true,
        }
    }
}

/// Every plugin the shell knows, in the order of registration.
pub open spec fn catalogue() -> Seq<Plugin> {
    seq![Plugin::OsInfo, Plugin::Process, Plugin::Opener, Plugin::Updater]
}

/// The plugins of `all` that `platform` gets, in the order they have in `all`.
pub open spec fn selected(all: Seq<Plugin>, platform: Platform) -> Seq<Plugin> {
    all.filter(|plugin: Plugin| plugin.available_on(platform))
}

/// The plugins that a startup on `platform` registers, in order: the three
/// that every platform gets, then the updater where the platform is a desktop.
pub open spec fn plugins_for(platform: Platform) -> Seq<Plugin> {
    if platform.desktop() {
        seq![Plugin::OsInfo, Plugin::Process, Plugin::Opener, Plugin::Updater]
    } else {
        seq![Plugin::OsInfo, Plugin::Process, Plugin::Opener]
    }
}

/// Lists every plugin the shell knows, in the order of registration.
pub fn registry() -> (all: Vec<Plugin>)
    ensures
        all@ == catalogue(),
{
    let mut all: Vec<Plugin> = Vec::new();
    all.push(Plugin::OsInfo);
    all.push(Plugin::Process);
    all.push(Plugin::Opener);
    all.push(Plugin::Updater);
    all
}

/// On every platform a startup registers exactly the plugins that are
/// available there, each of them once.
pub proof fn lemma_registered_iff_available(platform: Platform, plugin: Plugin)
    ensures
        plugins_for(platform).contains(plugin) <==> plugin.available_on(platform),
        plugins_for(platform).no_duplicates(),
{
    let registered = plugins_for(platform);
    assert(registered[0] == Plugin::OsInfo);
    assert(registered[1] == Plugin::Process);
    assert(registered[2] == Plugin::Opener);
    if platform.desktop() {
        assert(registered[3] == Plugin::Updater);
    }
}

/// On macOS, Linux and Windows a startup registers four plugins: OS
/// information, process control and the opener, in this order, and the
/// updater behind them. Every plugin there is, is among them.
pub proof fn lemma_desktop_registers_all_four(platform: Platform)
    requires
        platform.desktop(),
    ensures
        plugins_for(platform) == seq![
            Plugin::OsInfo,
            Plugin::Process,
            Plugin::Opener,
            Plugin::Updater,
        ],
        plugins_for(platform) == catalogue(),
        forall|plugin: Plugin| plugins_for(platform).contains(plugin),
{
    assert forall|plugin: Plugin| plugins_for(platform).contains(plugin) by {
        lemma_registered_iff_available(platform, plugin);
    }
}

/// On every other platform a startup registers three plugins: OS information,
/// process control and the opener, in this order. The updater is not among
/// them.
pub proof fn lemma_elsewhere_registers_three(platform: Platform)
    requires
        !platform.desktop(),
    ensures
        plugins_for(platform) == seq![Plugin::OsInfo, Plugin::Process, Plugin::Opener],
        !plugins_for(platform).contains(Plugin::Updater),
{
    lemma_registered_iff_available(platform, Plugin::Updater);
}

/// What a platform outside the desktop family gets is what a desktop gets
/// without the updater: the same plugins in the same order up to the last,
/// and so a strict subset.
pub proof fn lemma_elsewhere_is_desktop_without_updater(desktop: Platform, other: Platform)
    requires
        desktop.desktop(),
        !other.desktop(),
    ensures
        plugins_for(other) == plugins_for(desktop).drop_last(),
        plugins_for(desktop) == plugins_for(other).push(Plugin::Updater),
        forall|plugin: Plugin|
            plugins_for(other).contains(plugin) ==> plugins_for(desktop).contains(plugin),
        plugins_for(desktop).contains(Plugin::Updater),
        !plugins_for(other).contains(Plugin::Updater),
{
    lemma_desktop_registers_all_four(desktop);
    lemma_elsewhere_registers_three(other);
}

} // verus!
