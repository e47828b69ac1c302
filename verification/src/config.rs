//! Workspace configuration: named workspaces with their credentials and the
//! rules for choosing one.
use vstd::prelude::*;
use crate::api::Error;
use crate::text::concat;

verus! {

/// The settings of one workspace.
#[derive(Debug)]
pub struct WorkspaceConfig {
    pub api_key: String,
    pub user_id: String,
    pub fetch_limit: usize,
}

impl Clone for WorkspaceConfig {
    fn clone(&self) -> (r: Self)
        ensures
            r == *self,
    {
        WorkspaceConfig {
            api_key: self.api_key.clone(),
            user_id: self.user_id.clone(),
            fetch_limit: self.fetch_limit,
        }
    }
}

/// The number of stories fetched when a workspace does not say.
pub fn default_fetch_limit() -> (r: usize)
    ensures
        r == 50,
{
    50
}

/// The configuration file's contents: the workspace names in their listed
/// order, an optional default, and the settings of each named workspace.
#[derive(Debug)]
pub struct Config {
    pub workspaces: Vec<String>,
    pub default_workspace: Option<String>,
    pub workspace_configs: Vec<(String, WorkspaceConfig)>,
}

/// The settings stored under `name`: the first entry with that name.
pub open spec fn lookup(entries: Seq<(String, WorkspaceConfig)>, name: Seq<char>) -> Option<WorkspaceConfig>
    decreases entries.len(),
{
    if entries.len() == 0 {
        None
    } else if entries[0].0@ == name {
        Some(entries[0].1)
    } else {
        lookup(entries.drop_first(), name)
    }
}

/// No two entries share a name.
pub open spec fn unique_names(entries: Seq<(String, WorkspaceConfig)>) -> bool {
    forall|i: int, j: int| 0 <= i < j < entries.len() ==> entries[i].0@ != entries[j].0@
}

/// Whether a list of names holds `name`.
pub open spec fn names_contain(names: Seq<String>, name: Seq<char>) -> bool {
    exists|i: int| 0 <= i < names.len() && #[trigger] names[i]@ == name
}

proof fn lemma_lookup_absent(entries: Seq<(String, WorkspaceConfig)>, name: Seq<char>)
    requires
        forall|i: int| 0 <= i < entries.len() ==> (#[trigger] entries[i]).0@ != name,
    ensures
        lookup(entries, name) is None,
    decreases entries.len(),
{
    if entries.len() > 0 {
        assert forall|i: int| 0 <= i < entries.drop_first().len() implies (#[trigger] entries.drop_first()[i]).0@ != name by {
            assert(entries.drop_first()[i] == entries[i + 1]);
        }
        lemma_lookup_absent(entries.drop_first(), name);
    }
}

proof fn lemma_lookup_at(entries: Seq<(String, WorkspaceConfig)>, k: int, name: Seq<char>)
    requires
        0 <= k < entries.len(),
        entries[k].0@ == name,
        forall|i: int| 0 <= i < k ==> (#[trigger] entries[i]).0@ != name,
    ensures
        lookup(entries, name) == Some(entries[k].1),
    decreases k,
{
    if k > 0 {
        assert forall|i: int| 0 <= i < k - 1 implies (#[trigger] entries.drop_first()[i]).0@ != name by {
            assert(entries.drop_first()[i] == entries[i + 1]);
        }
        lemma_lookup_at(entries.drop_first(), k - 1, name);
    }
}

proof fn lemma_lookup_unique(entries: Seq<(String, WorkspaceConfig)>, k: int)
    requires
        0 <= k < entries.len(),
        unique_names(entries),
    ensures
        lookup(entries, entries[k].0@) == Some(entries[k].1),
{
    lemma_lookup_at(entries, k, entries[k].0@);
}

impl Config {
    /// The configuration's settings by name.
    pub open spec fn lookup(&self, name: Seq<char>) -> Option<WorkspaceConfig> {
        lookup(self.workspace_configs@, name)
    }

    /// Well-formed: no workspace's settings are stored twice.
    pub open spec fn wf(&self) -> bool {
        unique_names(self.workspace_configs@)
    }

    fn find(&self, name: &str) -> (r: Option<usize>)
        ensures
            match r {
                Some(k) => k < self.workspace_configs@.len() && self.workspace_configs@[k as int].0@
                    == name@ && self.lookup(name@) == Some(self.workspace_configs@[k as int].1),
                None => self.lookup(name@) is None,
            },
    {
        let mut i: usize = 0;
        while i < self.workspace_configs.len()
            invariant
                i <= self.workspace_configs@.len(),
                forall|k: int| 0 <= k < i ==> (#[trigger] self.workspace_configs@[k]).0@ != name@,
            decreases self.workspace_configs@.len() - i,
        {
            if self.workspace_configs[i].0 == String::from_str(name) {
                proof {
                    lemma_lookup_at(self.workspace_configs@, i as int, name@);
                }
                return Some(i);
            }
            i = i + 1;
        }
        proof {
            lemma_lookup_absent(self.workspace_configs@, name@);
        }
        None
    }

    /// The settings of the named workspace, or an error naming it.
    pub fn get_workspace(&self, name: &str) -> (r: Result<&WorkspaceConfig, Error>)
        ensures
            match self.lookup(name@) {
                Some(c) => r matches Ok(w) && *w == c,
                None => r matches Err(e) && e.message@ == "Workspace '"@ + name@
                    + "' not found in config"@ && e.causes@.len() == 0,
            },
    {
        match self.find(name) {
            Some(k) => Ok(&self.workspace_configs[k].1),
            None => {
                let m = concat(concat("Workspace '", name).as_str(), "' not found in config");
                Err(Error::new(m.as_str()))
            },
        }
    }

    /// Whether settings are stored for the named workspace.
    pub fn contains_workspace(&self, name: &str) -> (r: bool)
        ensures
            r == self.lookup(name@) is Some,
    {
        self.find(name).is_some()
    }

    /// The workspace to use when none is named: the configured default when
    /// it has settings, else the only listed workspace, else none.
    pub fn get_default_workspace(&self) -> (r: Option<String>)
        ensures
            r == (if self.default_workspace is Some && self.lookup(self.default_workspace->0@) is Some {
                self.default_workspace
            } else if self.workspaces@.len() == 1 {
                Some(self.workspaces@[0])
            } else {
                None
            }),
    {
        if let Some(default) = &self.default_workspace {
            if self.contains_workspace(default.as_str()) {
                return Some(default.clone());
            }
        }
        if self.workspaces.len() == 1 {
            return Some(self.workspaces[0].clone());
        }
        None
    }

    /// Adds or replaces a workspace's settings and lists its name once. The
    /// first workspace of a configuration without a default becomes the
    /// default.
    pub fn add_workspace(&mut self, name: &str, config: WorkspaceConfig)
        requires
            old(self).wf(),
        ensures
            final(self).wf(),
            final(self).lookup(name@) == Some(config),
            forall|other: Seq<char>| other != name@ ==> #[trigger] final(self).lookup(other) == old(self).lookup(other),
            final(self).workspaces@ == (if names_contain(old(self).workspaces@, name@) {
                old(self).workspaces@
            } else {
                old(self).workspaces@.push(final(self).workspaces@.last())
            }),
            !names_contain(old(self).workspaces@, name@) ==> final(self).workspaces@.last()@ == name@,
            final(self).default_workspace == (if final(self).workspaces@.len() == 1 && old(self).default_workspace is None {
                Some(final(self).workspaces@[0])
            } else {
                old(self).default_workspace
            }),
    {
        let mut listed = false;
        let mut i: usize = 0;
        while i < self.workspaces.len()
            invariant
                i <= self.workspaces@.len(),
                listed == exists|k: int| 0 <= k < i && #[trigger] self.workspaces@[k]@ == name@,
            decreases self.workspaces@.len() - i,
        {
            if self.workspaces[i] == String::from_str(name) {
                listed = true;
            }
            i = i + 1;
        }
        if !listed {
            self.workspaces.push(String::from_str(name));
        }
        let ghost before = self.workspace_configs@;
        match self.find(name) {
            Some(k) => {
                let key = String::from_str(name);
                let ghost e = (key, config);
                self.workspace_configs.set(k, (key, config));
                proof {
                    let after = self.workspace_configs@;
                    assert(unique_names(after)) by {
                        assert forall|a: int, b: int| 0 <= a < b < after.len() implies after[a].0@ != after[b].0@ by {
                            assert(before[a].0@ != before[b].0@);
                        }
                    }
                    lemma_lookup_unique(after, k as int);
                    assert forall|other: Seq<char>| other != name@ implies #[trigger] lookup(after, other) == lookup(before, other) by {
                        lemma_lookup_other(before, k as int, e, other);
                    }
                }
            },
            None => {
                self.workspace_configs.push((String::from_str(name), config));
                proof {
                    let after = self.workspace_configs@;
                    assert(after.drop_last() =~= before);
                    lemma_lookup_absent_means(before, name@);
                    assert(unique_names(after)) by {
                        assert forall|a: int, b: int| 0 <= a < b < after.len() implies after[a].0@ != after[b].0@ by {
                            if b < before.len() {
                                assert(before[a].0@ != before[b].0@);
                            } else {
                                assert(after[a] == before[a]);
                            }
                        }
                    }
                    lemma_lookup_unique(after, after.len() - 1);
                    assert forall|other: Seq<char>| other != name@ implies #[trigger] lookup(after, other) == lookup(before, other) by {
                        lemma_lookup_push(before, after.last(), other);
                    }
                }
            },
        }
        if self.workspaces.len() == 1 && self.default_workspace.is_none() {
            self.default_workspace = Some(self.workspaces[0].clone());
        }
    }

    /// The example configuration text.
    pub fn example() -> (r: String)
        ensures
            r@ == EXAMPLE_CONFIG@,
    {
        String::from_str(EXAMPLE_CONFIG)
    }
}

proof fn lemma_lookup_absent_means(entries: Seq<(String, WorkspaceConfig)>, name: Seq<char>)
    requires
        lookup(entries, name) is None,
    ensures
        forall|i: int| 0 <= i < entries.len() ==> (#[trigger] entries[i]).0@ != name,
    decreases entries.len(),
{
    if entries.len() > 0 {
        lemma_lookup_absent_means(entries.drop_first(), name);
        assert forall|i: int| 0 <= i < entries.len() implies (#[trigger] entries[i]).0@ != name by {
            if i > 0 {
                assert(entries[i] == entries.drop_first()[i - 1]);
            }
        }
    }
}

proof fn lemma_lookup_other(
    entries: Seq<(String, WorkspaceConfig)>,
    k: int,
    e: (String, WorkspaceConfig),
    other: Seq<char>,
)
    requires
        0 <= k < entries.len(),
        entries[k].0@ == e.0@,
        other != e.0@,
    ensures
        lookup(entries.update(k, e), other) == lookup(entries, other),
    decreases entries.len(),
{
    if k > 0 {
        assert(entries.update(k, e).drop_first() =~= entries.drop_first().update(k - 1, e));
        lemma_lookup_other(entries.drop_first(), k - 1, e, other);
    } else {
        assert(entries.update(k, e).drop_first() =~= entries.drop_first());
    }
}

proof fn lemma_lookup_push(entries: Seq<(String, WorkspaceConfig)>, e: (String, WorkspaceConfig), other: Seq<char>)
    requires
        other != e.0@,
    ensures
        lookup(entries.push(e), other) == lookup(entries, other),
    decreases entries.len(),
{
    if entries.len() > 0 {
        assert(entries.push(e).drop_first() =~= entries.drop_first().push(e));
        assert(entries.push(e)[0] == entries[0]);
        lemma_lookup_push(entries.drop_first(), e, other);
    } else {
        assert(entries.push(e).drop_first() =~= Seq::<(String, WorkspaceConfig)>::empty());
        assert(entries.push(e)[0] == e);
        assert(lookup(Seq::<(String, WorkspaceConfig)>::empty(), other) is None);
        assert(entries =~= Seq::<(String, WorkspaceConfig)>::empty());
    }
}

/// The text of the example configuration.
pub const EXAMPLE_CONFIG: &'static str = "# SC-TUI Configuration File\n# \n# List all workspace names\nworkspaces = [\"personal\", \"work\", \"client\"]\n\n# Optional: specify default workspace (if not set, single workspace will be used as default)\ndefault_workspace = \"personal\"\n\n# Configuration for 'personal' workspace\n[personal]\napi_key = \"your-personal-api-key\"\nuser_id = \"your-mention-name\"\nfetch_limit = 50  # Optional: defaults to 50 if not specified\n\n# Configuration for 'work' workspace  \n[work]\napi_key = \"your-work-api-key\"\nuser_id = \"your-work-mention-name\"\nfetch_limit = 50  # Fetch more stories for work workspace\n\n# Configuration for 'client' workspace\n[client]\napi_key = \"your-client-api-key\"\nuser_id = \"your-client-mention-name\"\n# fetch_limit not specified, will use default of 50\n";

} // verus!
