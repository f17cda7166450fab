//! The registry of loaded plugins, found by name or by route.
use vstd::prelude::*;
use crate::store::KeyedStore;

verus! {

/// A loaded plugin as the engine refers to it. `handle` identifies the plugin's
/// entry points, which the host keeps.
pub struct PluginBinding {
    /// Internal name, such as `plugin_wifi`.
    pub name: String,
    /// User-facing route, such as `wifi`.
    pub plugin_route: String,
    /// Folder of the plugin's web assets.
    pub static_path: String,
    /// Host-side identifier of the plugin's entry points.
    pub handle: u64,
}

/// A copy of a binding.
pub fn copy_binding(b: &PluginBinding) -> (r: PluginBinding)
    ensures
        r == *b,
{
    PluginBinding {
        name: b.name.clone(),
        plugin_route: b.plugin_route.clone(),
        static_path: b.static_path.clone(),
        handle: b.handle,
    }
}

/// All loaded plugins, by internal name and by route.
pub struct PluginRegistry {
    name_map: KeyedStore<PluginBinding>,
    route_map: KeyedStore<PluginBinding>,
}

impl PluginRegistry {
    /// Plugins by internal name.
    pub closed spec fn by_name(&self) -> Map<Seq<char>, PluginBinding> {
        self.name_map@
    }

    /// Plugins by route.
    pub closed spec fn by_route(&self) -> Map<Seq<char>, PluginBinding> {
        self.route_map@
    }

    /// Internal names, in the order they were first registered.
    pub closed spec fn names(&self) -> Seq<Seq<char>> {
        self.name_map.keys()
    }

    pub closed spec fn wf(&self) -> bool {
        self.name_map.wf() && self.route_map.wf()
    }

    /// The listed names are exactly the registered ones, each once.
    pub proof fn lemma_names(&self)
        requires
            self.wf(),
        ensures
            forall|i: int| 0 <= i < self.names().len() ==> self.by_name().contains_key(#[trigger] self.names()[i]),
            forall|k: Seq<char>| self.by_name().contains_key(k) ==> self.names().contains(k),
            self.names().no_duplicates(),
    {
        self.name_map.lemma_keys();
    }

    /// An empty registry.
    pub fn new() -> (r: Self)
        ensures
            r.wf(),
            r.by_name() == Map::<Seq<char>, PluginBinding>::empty(),
            r.by_route() == Map::<Seq<char>, PluginBinding>::empty(),
    {
        PluginRegistry { name_map: KeyedStore::new(), route_map: KeyedStore::new() }
    }

    /// Registers a plugin under its name and under its route, replacing whatever
    /// was registered under either.
    pub fn register(&mut self, plugin: PluginBinding)
        requires
            old(self).wf(),
        ensures
            final(self).wf(),
            final(self).by_name() == old(self).by_name().insert(plugin.name@, plugin),
            final(self).by_route() == old(self).by_route().insert(plugin.plugin_route@, plugin),
    {
        let by_name = copy_binding(&plugin);
        let name = plugin.name.clone();
        let route = plugin.plugin_route.clone();
        self.name_map.insert(name, by_name);
        self.route_map.insert(route, plugin);
    }

    /// The plugin registered under `name`.
    pub fn get(&self, name: &str) -> (r: Option<PluginBinding>)
        ensures
            r == (if self.by_name().contains_key(name@) {
                Some(self.by_name()[name@])
            } else {
                None::<PluginBinding>
            }),
    {
        match self.name_map.get(name) {
            Some(b) => Some(copy_binding(b)),
            None => None,
        }
    }

    /// The plugin registered under `route`.
    pub fn get_by_route(&self, route: &str) -> (r: Option<PluginBinding>)
        ensures
            r == (if self.by_route().contains_key(route@) {
                Some(self.by_route()[route@])
            } else {
                None::<PluginBinding>
            }),
    {
        match self.route_map.get(route) {
            Some(b) => Some(copy_binding(b)),
            None => None,
        }
    }

    /// Every plugin registered by name, in the order of first registration.
    pub fn all(&self) -> (r: Vec<PluginBinding>)
        requires
            self.wf(),
        ensures
            r@.len() == self.names().len(),
            forall|i: int| 0 <= i < r@.len() ==> #[trigger] r@[i] == self.by_name()[self.names()[i]],
    {
        proof {
            self.name_map.lemma_keys();
        }
        let n = self.name_map.key_count();
        let mut out: Vec<PluginBinding> = Vec::new();
        let mut i: usize = 0;
        while i < n
            invariant
                self.wf(),
                n == self.names().len(),
                i <= n,
                out@.len() == i,
                forall|j: int| 0 <= j < self.names().len() ==> self.by_name().contains_key(#[trigger] self.names()[j]),
                forall|j: int| 0 <= j < i ==> #[trigger] out@[j] == self.by_name()[self.names()[j]],
            decreases n - i,
        {
            let key = self.name_map.key_at(i);
            assert(self.by_name().contains_key(self.names()[i as int]));
            let b = self.name_map.get(key.as_str()).unwrap();
            out.push(copy_binding(b));
            i += 1;
        }
        out
    }
}

/// A registered plugin is found again by its name and by its route.
pub proof fn law_register_then_lookup(before: PluginRegistry, after: PluginRegistry, plugin: PluginBinding)
    requires
        after.by_name() == before.by_name().insert(plugin.name@, plugin),
        after.by_route() == before.by_route().insert(plugin.plugin_route@, plugin),
    ensures
        after.by_name().contains_key(plugin.name@) && after.by_name()[plugin.name@] == plugin,
        after.by_route().contains_key(plugin.plugin_route@) && after.by_route()[plugin.plugin_route@] == plugin,
{
}

/// Registering a plugin leaves every other name and route as it was.
pub proof fn law_register_keeps_others(
    before: PluginRegistry,
    after: PluginRegistry,
    plugin: PluginBinding,
    name: Seq<char>,
    route: Seq<char>,
)
    requires
        after.by_name() == before.by_name().insert(plugin.name@, plugin),
        after.by_route() == before.by_route().insert(plugin.plugin_route@, plugin),
        name != plugin.name@,
        route != plugin.plugin_route@,
    ensures
        after.by_name().contains_key(name) == before.by_name().contains_key(name),
        before.by_name().contains_key(name) ==> after.by_name()[name] == before.by_name()[name],
        after.by_route().contains_key(route) == before.by_route().contains_key(route),
        before.by_route().contains_key(route) ==> after.by_route()[route] == before.by_route()[route],
{
}

} // verus!
