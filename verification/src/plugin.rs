//! Plugins: systems that come from a shared library.
//!
//! A plugin is filled by the library's `build` function before the scheduler starts.
//! The registry keeps the library loaded for as long as it holds the plugin.

use crate::system::BoxedSystem;
use crate::system::System;
use crate::system::Systems;
use dlopen2::raw::Library;
use vstd::prelude::*;

verus! {

/// The systems that one plugin contributes.
pub struct Plugin {
    startup_systems: Systems,
    systems: Systems,
}

/// What a plugin holds.
pub struct PluginView {
    /// The startup systems, in the order of registration.
    pub startup_systems: Seq<BoxedSystem>,
    /// The per-tick systems, in the order of registration.
    pub systems: Seq<BoxedSystem>,
}

impl Plugin {
    pub closed spec fn view(&self) -> PluginView {
        PluginView { startup_systems: self.startup_systems@, systems: self.systems@ }
    }

    pub fn new() -> (plugin: Plugin)
        ensures
            plugin@.startup_systems == Seq::<BoxedSystem>::empty(),
            plugin@.systems == Seq::<BoxedSystem>::empty(),
    {
        Plugin { systems: Systems::new(), startup_systems: Systems::new() }
    }

    /// Moves the systems of the plugin into the registries of a simulation, behind the
    /// systems that those hold already. The plugin is left without systems.
    pub fn register(&mut self, startup_systems: &mut Systems, systems: &mut Systems)
        ensures
            final(startup_systems)@ == old(startup_systems)@ + old(self)@.startup_systems,
            final(systems)@ == old(systems)@ + old(self)@.systems,
            final(self)@.startup_systems == Seq::<BoxedSystem>::empty(),
            final(self)@.systems == Seq::<BoxedSystem>::empty(),
    {
        startup_systems.append(&mut self.startup_systems);
        systems.append(&mut self.systems);
    }

    /// Registers a system that runs once in every cycle.
    pub fn add_system<S: System>(&mut self, system: S) -> (plugin: &mut Self)
        ensures
            plugin@.systems == old(self)@.systems.push(BoxedSystem::of(system)),
            plugin@.startup_systems == old(self)@.startup_systems,
            *final(self) == *final(plugin),
    {
        self.systems.add_system(system);
        self
    }

    /// Registers a system that runs once, before the per-tick systems of the first cycle.
    pub fn add_startup_system<S: System>(&mut self, system: S) -> (plugin: &mut Self)
        ensures
            plugin@.startup_systems == old(self)@.startup_systems.push(BoxedSystem::of(system)),
            plugin@.systems == old(self)@.systems,
            *final(self) == *final(plugin),
    {
        self.startup_systems.add_system(system);
        self
    }
}

/// `dlopen2::raw::Library`, a shared library that is kept loaded while the value lives.
#[verifier::external_type_specification]
#[verifier::external_body]
pub struct ExLibrary(Library);

struct PluginEntry {
    path: String,
    lib: Library,
    plugin: Plugin,
}

/// The plugins that have been loaded, in the order of loading.
pub struct Plugins {
    plugins: Vec<PluginEntry>,
}

/// What the registry keeps of one plugin. The library that the plugin came from is kept
/// too; nothing of it is looked at.
pub struct LoadedView {
    /// The path that the plugin's library was opened from.
    pub path: Seq<char>,
    /// The systems that the plugin holds.
    pub plugin: PluginView,
}

impl Plugins {
    /// The loaded plugins, in the order of loading.
    pub closed spec fn view(&self) -> Seq<LoadedView> {
        Seq::new(
            self.plugins.len() as nat,
            |i: int| LoadedView { path: self.plugins[i].path@, plugin: self.plugins[i].plugin@ },
        )
    }

    pub fn new() -> (plugins: Plugins)
        ensures
            plugins@ == Seq::<LoadedView>::empty(),
    {
        let plugins = Plugins { plugins: Vec::new() };
        assert(plugins@ =~= Seq::<LoadedView>::empty());
        plugins
    }

    /// The number of loaded plugins.
    pub fn len(&self) -> (count: usize)
        ensures
            count == self@.len(),
    {
        self.plugins.len()
    }

    /// Takes in a plugin that was built by the library `lib`, which was opened from
    /// `path`, and returns the index under which the plugin is kept.
    pub fn load(&mut self, path: String, lib: Library, plugin: Plugin) -> (index: usize)
        ensures
            index == old(self)@.len(),
            final(self)@ == old(self)@.push(LoadedView { path: path@, plugin: plugin@ }),
    {
        let entry = PluginEntry { path, lib, plugin };
        let index = self.plugins.len();
        self.plugins.push(entry);
        assert(self@ =~= old(self)@.push(LoadedView { path: path@, plugin: plugin@ }));
        index
    }
}

} // verus!
