//! Backend entries of a backend configuration file, with top-level defaults.

use vstd::prelude::*;

use crate::command::{copy_opt, opt_view};
use crate::text::str_eq;

verus! {

/// One backend entry.
#[derive(Debug, PartialEq, Eq)]
pub struct BackendConfig {
    pub name: String,
    pub benchmark_name: Option<String>,
    pub build_command: String,
    pub run_command: String,
}

/// The abstract value of a backend entry.
pub struct BackendConfigView {
    pub name: Seq<char>,
    pub benchmark_name: Option<Seq<char>>,
    pub build_command: Seq<char>,
    pub run_command: Seq<char>,
}

impl View for BackendConfig {
    type V = BackendConfigView;

    open spec fn view(&self) -> BackendConfigView {
        BackendConfigView {
            name: self.name@,
            benchmark_name: opt_view(self.benchmark_name),
            build_command: self.build_command@,
            run_command: self.run_command@,
        }
    }
}

impl Clone for BackendConfig {
    fn clone(&self) -> (r: Self)
        ensures
            r@ == self@,
    {
        BackendConfig {
            name: self.name.clone(),
            benchmark_name: copy_opt(&self.benchmark_name),
            build_command: self.build_command.clone(),
            run_command: self.run_command.clone(),
        }
    }
}

/// Defaults applied to every backend entry that leaves a field unset.
#[derive(Debug, PartialEq, Eq)]
pub struct BackendDefaults {
    pub benchmark_name: Option<String>,
    pub build_command: Option<String>,
    pub run_command: Option<String>,
}

/// The abstract value of backend defaults.
pub struct BackendDefaultsView {
    pub benchmark_name: Option<Seq<char>>,
    pub build_command: Option<Seq<char>>,
    pub run_command: Option<Seq<char>>,
}

impl View for BackendDefaults {
    type V = BackendDefaultsView;

    open spec fn view(&self) -> BackendDefaultsView {
        BackendDefaultsView {
            benchmark_name: opt_view(self.benchmark_name),
            build_command: opt_view(self.build_command),
            run_command: opt_view(self.run_command),
        }
    }
}

impl BackendDefaults {
    /// No defaults at all.
    pub fn empty() -> (r: BackendDefaults)
        ensures
            r@.benchmark_name is None,
            r@.build_command is None,
            r@.run_command is None,
    {
        BackendDefaults { benchmark_name: None, build_command: None, run_command: None }
    }

    /// Whether no default is set.
    pub fn is_empty(&self) -> (r: bool)
        ensures
            r == (self@.benchmark_name is None && self@.build_command is None
                && self@.run_command is None),
    {
        self.benchmark_name.is_none() && self.build_command.is_none() && self.run_command.is_none()
    }
}

/// The backend entries of a configuration file, with their defaults.
#[derive(Debug, PartialEq, Eq)]
pub struct BackendConfigList {
    pub configs: Vec<BackendConfig>,
    pub defaults: BackendDefaults,
}

/// A text field with its default: the default replaces an empty text.
pub open spec fn text_or_default(value: Seq<char>, default: Option<Seq<char>>) -> Seq<char> {
    if value.len() == 0 && default is Some {
        default->0
    } else {
        value
    }
}

/// An optional field with its default: the default replaces a missing value.
pub open spec fn or_default<T>(value: Option<T>, default: Option<T>) -> Option<T> {
    if value is None {
        default
    } else {
        value
    }
}

/// A backend entry with the defaults applied.
pub open spec fn merge_backend(c: BackendConfigView, d: BackendDefaultsView) -> BackendConfigView {
    BackendConfigView {
        name: c.name,
        benchmark_name: or_default(c.benchmark_name, d.benchmark_name),
        build_command: text_or_default(c.build_command, d.build_command),
        run_command: text_or_default(c.run_command, d.run_command),
    }
}

/// How a search for a benchmark name among entries ends: at the index of the
/// first entry with that name; with none found; or at an entry with no
/// benchmark name, which stops the search with a panic.
pub enum FindOutcome {
    Found(int),
    NotFound,
    MissingName,
}

/// The outcome of searching backend entries, from the first on, for `name`.
pub open spec fn find_backend(configs: Seq<BackendConfigView>, name: Seq<char>) -> FindOutcome
    decreases configs.len(),
{
    if configs.len() == 0 {
        FindOutcome::NotFound
    } else {
        match configs[0].benchmark_name {
            None => FindOutcome::MissingName,
            Some(n) => if n == name {
                FindOutcome::Found(0)
            } else {
                match find_backend(configs.drop_first(), name) {
                    FindOutcome::Found(i) => FindOutcome::Found(i + 1),
                    other => other,
                }
            },
        }
    }
}

impl BackendConfigList {
    /// The abstract value of all entries, before defaults are applied.
    pub open spec fn entries(&self) -> Seq<BackendConfigView> {
        self.configs@.map_values(|c: BackendConfig| c@)
    }

    /// The abstract value of all entries, with the defaults applied.
    pub open spec fn merged_view(&self) -> Seq<BackendConfigView> {
        self.entries().map_values(|c: BackendConfigView| merge_backend(c, self.defaults@))
    }

    /// All entries, with the defaults applied, in order.
    pub fn configs(&self) -> (r: Vec<BackendConfig>)
        ensures
            r@.map_values(|c: BackendConfig| c@) == self.merged_view(),
    {
        let mut r: Vec<BackendConfig> = Vec::new();
        let mut i: usize = 0;
        while i < self.configs.len()
            invariant
                i <= self.configs.len(),
                r@.len() == i,
                forall|j: int| 0 <= j < i ==> #[trigger] r@[j]@ == self.merged_view()[j],
            decreases self.configs.len() - i,
        {
            let mut c = self.configs[i].clone();
            if c.benchmark_name.is_none() {
                c.benchmark_name = copy_opt(&self.defaults.benchmark_name);
            }
            if c.build_command.unicode_len() == 0 {
                if let Some(cmd) = &self.defaults.build_command {
                    c.build_command = cmd.clone();
                }
            }
            if c.run_command.unicode_len() == 0 {
                if let Some(cmd) = &self.defaults.run_command {
                    c.run_command = cmd.clone();
                }
            }
            r.push(c);
            i = i + 1;
        }
        assert(r@.map_values(|c: BackendConfig| c@) =~= self.merged_view());
        r
    }

    /// The first entry (defaults applied) whose benchmark name is `benchmark_name`.
    pub fn find_config(&self, benchmark_name: &str) -> (r: Option<BackendConfig>)
        requires
            !(find_backend(self.merged_view(), benchmark_name@) is MissingName),
        ensures
            match find_backend(self.merged_view(), benchmark_name@) {
                FindOutcome::Found(i) => r matches Some(c) && c@ == self.merged_view()[i],
                _ => r is None,
            },
    {
        let configs = self.configs();
        let ghost all = self.merged_view();
        assert(all.subrange(0, all.len() as int) =~= all);
        let mut i: usize = 0;
        while i < configs.len()
            invariant
                configs@.map_values(|c: BackendConfig| c@) == all,
                all == self.merged_view(),
                !(find_backend(all, benchmark_name@) is MissingName),
                i <= configs.len(),
                find_backend(all, benchmark_name@) == match find_backend(all.subrange(i as int, all.len() as int), benchmark_name@) {
                    FindOutcome::Found(k) => FindOutcome::Found(k + i),
                    other => other,
                },
            decreases configs.len() - i,
        {
            let ghost rest = all.subrange(i as int, all.len() as int);
            assert(rest.drop_first() =~= all.subrange(i + 1, all.len() as int));
            assert(rest[0] == configs@[i as int]@);
            match &configs[i].benchmark_name {
                None => {
                    assert(false);
                    return None;
                },
                Some(n) => {
                    if str_eq(n.as_str(), benchmark_name) {
                        return Some(configs[i].clone());
                    }
                },
            }
            i = i + 1;
        }
        None
    }
}

/// Whether an entry has a benchmark name, and it is not `name`.
pub open spec fn other_name(c: BackendConfigView, name: Seq<char>) -> bool {
    c.benchmark_name is Some && c.benchmark_name->0 != name
}

/// Finding a backend entry by benchmark name finds the first entry with that
/// name; the search finds nothing only when every entry has another name, and
/// it stops at an entry without a name only when no entry before it matched.
pub proof fn lemma_find_backend_first_match(configs: Seq<BackendConfigView>, name: Seq<char>)
    ensures
        find_backend(configs, name) matches FindOutcome::Found(i) ==> {
            &&& 0 <= i < configs.len()
            &&& configs[i].benchmark_name == Some(name)
            &&& forall|j: int| 0 <= j < i ==> other_name(#[trigger] configs[j], name)
        },
        find_backend(configs, name) is NotFound ==> forall|j: int|
            0 <= j < configs.len() ==> other_name(#[trigger] configs[j], name),
        find_backend(configs, name) is MissingName ==> exists|k: int| {
            &&& 0 <= k < configs.len()
            &&& #[trigger] configs[k].benchmark_name is None
            &&& forall|j: int| 0 <= j < k ==> other_name(#[trigger] configs[j], name)
        },
    decreases configs.len(),
{
    if configs.len() > 0 && other_name(configs[0], name) {
        let rest = configs.drop_first();
        lemma_find_backend_first_match(rest, name);
        assert forall|j: int| 1 <= j < configs.len() implies #[trigger] configs[j] == rest[j - 1] by {}
        if let FindOutcome::Found(i) = find_backend(configs, name) {
            assert forall|j: int| 0 <= j < i implies other_name(#[trigger] configs[j], name) by {
                if j > 0 {
                    assert(configs[j] == rest[j - 1]);
                }
            }
        }
        if find_backend(configs, name) is NotFound {
            assert forall|j: int| 0 <= j < configs.len() implies other_name(#[trigger] configs[j], name) by {
                if j > 0 {
                    assert(configs[j] == rest[j - 1]);
                }
            }
        }
        if find_backend(configs, name) is MissingName {
            let k = choose|k: int| {
                &&& 0 <= k < rest.len()
                &&& #[trigger] rest[k].benchmark_name is None
                &&& forall|j: int| 0 <= j < k ==> other_name(#[trigger] rest[j], name)
            };
            assert(configs[k + 1] == rest[k]);
            assert forall|j: int| 0 <= j < k + 1 implies other_name(#[trigger] configs[j], name) by {
                if j > 0 {
                    assert(configs[j] == rest[j - 1]);
                }
            }
        }
    }
}

/// Applying the defaults to a backend entry fills only what it leaves unset:
/// a missing benchmark name takes the default's, an empty build or run
/// command takes the default's when there is one, and everything the entry
/// sets is kept.
pub proof fn lemma_backend_defaults_fill_unset_fields(list: &BackendConfigList, i: int)
    requires
        0 <= i < list.configs@.len(),
    ensures
        ({
            let c = list.configs@[i]@;
            let d = list.defaults@;
            let m = list.merged_view()[i];
            &&& list.merged_view().len() == list.configs@.len()
            &&& m.name == c.name
            &&& (c.benchmark_name is None ==> m.benchmark_name == d.benchmark_name)
            &&& (c.benchmark_name is Some ==> m.benchmark_name == c.benchmark_name)
            &&& (c.build_command.len() == 0 && d.build_command is Some ==> m.build_command == d.build_command->0)
            &&& (c.build_command.len() > 0 || d.build_command is None ==> m.build_command == c.build_command)
            &&& (c.run_command.len() == 0 && d.run_command is Some ==> m.run_command == d.run_command->0)
            &&& (c.run_command.len() > 0 || d.run_command is None ==> m.run_command == c.run_command)
        }),
{
    assert(list.entries()[i] == list.configs@[i]@);
}

} // verus!
