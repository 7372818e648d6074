//! The plugin registry, and the service that picks the plugin for a
//! connection.

use vstd::prelude::*;
use vstd::string::StringExecFns;
use crate::app_state::db_type_name;
use crate::config::{config_db_type, ConnectionConfig};
use crate::error::PluginError;
use crate::string_map::{strictly_sorted, StringMap};

verus! {

/// The plugins, by the name of the kind of database each serves.
pub struct DatabasePluginRegistry<P> {
    plugins: StringMap<P>,
}

impl<P> View for DatabasePluginRegistry<P> {
    type V = Map<Seq<char>, P>;

    closed spec fn view(&self) -> Map<Seq<char>, P> {
        self.plugins@
    }
}

impl<P> DatabasePluginRegistry<P> {
    /// A registry with no plugin.
    pub fn new() -> (r: Self)
        ensures
            r@ == Map::<Seq<char>, P>::empty(),
    {
        DatabasePluginRegistry { plugins: StringMap::new() }
    }

    /// Registers `plugin` under `db_type`, the name of the kind of database
    /// it serves, in place of any plugin registered under that name.
    pub fn register(&mut self, db_type: &str, plugin: P)
        ensures
            final(self)@ == old(self)@.insert(db_type@, plugin),
    {
        let _ = self.plugins.insert(String::from_str(db_type), plugin);
    }

    /// The plugin registered under `db_type`, if any.
    pub fn get(&self, db_type: &str) -> (r: Option<&P>)
        ensures
            r is Some <==> self@.dom().contains(db_type@),
            r matches Some(p) ==> *p == self@[db_type@],
    {
        self.plugins.get(db_type)
    }

    /// The names of the registered plugins, in ascending order.
    pub fn available_plugins(&self) -> (names: Vec<String>)
        ensures
            strictly_sorted(names@.map_values(|n: String| n@)),
            names@.map_values(|n: String| n@).to_set() == self@.dom(),
    {
        self.plugins.sorted_keys()
    }
}

/// The service that runs requests through the plugin of each connection's
/// kind of database.
pub struct ConnectionService<P> {
    registry: DatabasePluginRegistry<P>,
}

impl<P> View for ConnectionService<P> {
    type V = Map<Seq<char>, P>;

    closed spec fn view(&self) -> Map<Seq<char>, P> {
        self.registry@
    }
}

impl<P> ConnectionService<P> {
    /// A service over the plugins of `registry`.
    pub fn new(registry: DatabasePluginRegistry<P>) -> (s: Self)
        ensures
            s@ == registry@,
    {
        ConnectionService { registry }
    }

    /// The plugin for the kind of database of `config`; refused when no
    /// plugin serves it.
    pub fn plugin_for(&self, config: &ConnectionConfig) -> (r: Result<&P, PluginError>)
        ensures
            self@.dom().contains(db_type_name(config_db_type(*config))) ==> (r matches Ok(p) && *p
                == self@[db_type_name(config_db_type(*config))]),
            !self@.dom().contains(db_type_name(config_db_type(*config))) ==> (r matches Err(
                PluginError::PluginUnavailable(name),
            ) && name@ == db_type_name(config_db_type(*config))),
    {
        let name = config.database_type();
        match self.registry.get(name) {
            Some(p) => Ok(p),
            None => Err(PluginError::PluginUnavailable(String::from_str(name))),
        }
    }
}

/// A plugin registered under a name is the one found under that name, and
/// registering leaves the plugins under other names as they were.
pub proof fn lemma_register_then_get<P>(
    before: Map<Seq<char>, P>,
    name: Seq<char>,
    plugin: P,
    other: Seq<char>,
)
    ensures
        before.insert(name, plugin).dom().contains(name),
        before.insert(name, plugin)[name] == plugin,
        other != name ==> (before.insert(name, plugin).dom().contains(other)
            == before.dom().contains(other)),
        other != name && before.dom().contains(other) ==> before.insert(name, plugin)[other]
            == before[other],
{
}

/// The plugins of a registry that started empty and then had `plugins[i]`
/// registered under `names[i]`, in order.
pub open spec fn registrations<P>(names: Seq<Seq<char>>, plugins: Seq<P>) -> Map<Seq<char>, P>
    decreases names.len(),
{
    if names.len() == 0 {
        Map::empty()
    } else {
        registrations(names.drop_last(), plugins.drop_last()).insert(names.last(), plugins.last())
    }
}

/// After a sequence of registrations the registry serves exactly the names
/// registered, and under each name the plugin registered last under it.
pub proof fn lemma_registrations<P>(names: Seq<Seq<char>>, plugins: Seq<P>, i: int)
    requires
        names.len() == plugins.len(),
    ensures
        registrations(names, plugins).dom() == names.to_set(),
        0 <= i < names.len() && (forall|j: int| i < j < names.len() ==> names[j] != names[i])
            ==> registrations(names, plugins)[names[i]] == plugins[i],
    decreases names.len(),
{
    if names.len() > 0 {
        let n = names.len() - 1;
        lemma_registrations(names.drop_last(), plugins.drop_last(), i);
        assert(names.to_set() =~= names.drop_last().to_set().insert(names.last())) by {
            assert forall|x: Seq<char>| names.to_set().contains(x) implies names.drop_last().to_set().insert(names.last()).contains(x) by {
                let k = choose|k: int| 0 <= k < names.len() && names[k] == x;
                if k < n {
                    assert(names.drop_last()[k] == x);
                }
            }
            assert forall|x: Seq<char>| names.drop_last().to_set().insert(names.last()).contains(x) implies names.to_set().contains(x) by {
                if x != names.last() {
                    let k = choose|k: int| 0 <= k < names.drop_last().len() && names.drop_last()[k] == x;
                    assert(names[k] == x);
                } else {
                    assert(names[n] == x);
                }
            }
        }
        if 0 <= i < n && (forall|j: int| i < j < names.len() ==> names[j] != names[i]) {
            assert(names[n] != names[i]);
            assert(names.drop_last()[i] == names[i]);
            assert forall|j: int| i < j < names.drop_last().len() implies names.drop_last()[j] != names.drop_last()[i] by {
                assert(names[j] != names[i]);
            }
        }
    }
}

/// The registry of the three plugins, each under the name of the kind of
/// database it serves.
pub fn create_plugin_registry<P>(postgres: P, mysql: P, sqlite: P) -> (r: DatabasePluginRegistry<P>)
    ensures
        r@ == Map::<Seq<char>, P>::empty().insert("postgres"@, postgres).insert("mysql"@, mysql).insert(
            "sqlite"@,
            sqlite,
        ),
{
    let mut registry = DatabasePluginRegistry::new();
    registry.register("postgres", postgres);
    registry.register("mysql", mysql);
    registry.register("sqlite", sqlite);
    registry
}

} // verus!
