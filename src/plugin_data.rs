//! The plugin registry: local install state, the disable lists, the derived
//! status of each package, and the decisions behind install and removal.
use indexmap::IndexMap;
use vstd::hash_set::StringHashSet;
use vstd::prelude::*;
use vstd::string::StringExecFns;
use crate::ordered_map::{
    catalog_get, installed_get, installed_insert, installed_keys, installed_new, installed_remove,
    installed_values, keyed_wf, lemma_insert_keeps_wf, lemma_remove_keeps_wf, tracker_insert,
    tracker_keys, tracker_new, tracker_remove, tracker_values,
};
use crate::volt::{PluginInstallStatus, PluginOperation, VoltInfo, VoltMetadata};
use crate::volts_list::{PluginLoadStatus, VoltsList};

verus! {

/// Error shown when a package could not be downloaded.
pub const DOWNLOAD_FAILED: &'static str = "Could not download Plugin";

/// Error shown when a package to remove has no recorded directory.
pub const NO_DIRECTORY: &'static str = "Plugin Directory does not exist";

/// Error shown when a package's directory could not be deleted.
pub const REMOVE_FAILED: &'static str = "Could not remove Plugin Directory";

/// Text shown in place of a readme the marketplace does not have.
pub const NO_README: &'static str = "Plugin doesn't have a README";

/// The status of a package, derived from the disable lists, the installed
/// set and the catalog.
#[derive(Clone, Copy, Debug, PartialEq, Eq, Structural)]
pub enum PluginStatus {
    Installed,
    Install,
    Upgrade,
    Disabled,
}

/// A notification to the presentation layer.
pub enum PluginNotification {
    /// An install is under way; the message is empty or says why it failed.
    VoltInstalling(VoltInfo, String),
    /// A package is installed; the flag tells whether it has an embedded module.
    VoltInstalled(VoltMetadata, bool),
    /// A removal is under way; the message is empty or says why it failed.
    VoltRemoving(VoltMetadata, String),
    /// A package is removed; the flag tells whether it had an embedded module.
    VoltRemoved(VoltInfo, bool),
}

/// Work that the registry hands to its environment.
pub enum PluginAction {
    Notify(PluginNotification),
    /// Install a package with an embedded module through the execution backend.
    BackendInstall(VoltInfo),
    /// Remove a package with an embedded module through the execution backend.
    BackendRemove(VoltMetadata),
    /// Download and unpack a package; report with `download_finished`.
    Download(VoltInfo),
    /// Delete a package's directory; report with `remove_finished`.
    RemoveDir(VoltMetadata, String),
}

/// Whether a scanned package has no embedded module.
pub open spec fn has_no_module(m: VoltMetadata) -> bool {
    m.wasm is None
}

/// The installed set after a notification is applied.
pub open spec fn installed_after(m: Map<Seq<char>, VoltMetadata>, n: PluginNotification) -> Map<
    Seq<char>,
    VoltMetadata,
> {
    match n {
        PluginNotification::VoltInstalled(meta, _) => m.insert(meta.spec_id(), meta),
        PluginNotification::VoltRemoved(info, _) => m.remove(info.spec_id()),
        _ => m,
    }
}

/// The operations in progress after a notification is applied.
pub open spec fn in_progress_after(m: Map<Seq<char>, PluginInstallStatus>, n: PluginNotification) -> Map<
    Seq<char>,
    PluginInstallStatus,
> {
    match n {
        PluginNotification::VoltInstalling(info, e) => m.insert(
            info.spec_id(),
            PluginInstallStatus { operation: PluginOperation::Install, error: e },
        ),
        PluginNotification::VoltRemoving(meta, e) => m.insert(
            meta.spec_id(),
            PluginInstallStatus { operation: PluginOperation::Remove, error: e },
        ),
        PluginNotification::VoltInstalled(meta, _) => m.remove(meta.spec_id()),
        PluginNotification::VoltRemoved(info, _) => m.remove(info.spec_id()),
    }
}

/// The set of the strings' contents.
pub open spec fn names_of(v: Seq<String>) -> Set<Seq<char>> {
    Set::new(|x: Seq<char>| exists|i: int| 0 <= i < v.len() && v[i]@ == x)
}

fn name_set(names: &Vec<String>) -> (r: StringHashSet)
    ensures
        r@ == names_of(names@),
{
    let mut set = StringHashSet::new();
    let mut i: usize = 0;
    while i < names.len()
        invariant
            0 <= i <= names.len(),
            set@ == names_of(names@.subrange(0, i as int)),
        decreases names.len() - i,
    {
        proof {
            let pre = names@.subrange(0, i as int);
            let next = names@.subrange(0, i + 1);
            assert forall|x: Seq<char>| names_of(next).contains(x) <==> names_of(pre).insert(names@[i as int]@).contains(x) by {
                if names_of(next).contains(x) {
                    let j = choose|j: int| 0 <= j < next.len() && next[j]@ == x;
                    if j < i {
                        assert(pre[j] == next[j]);
                    }
                }
                if names_of(pre).contains(x) {
                    let j = choose|j: int| 0 <= j < pre.len() && pre[j]@ == x;
                    assert(pre[j] == next[j]);
                }
                if x == names@[i as int]@ {
                    assert(next[i as int] == names@[i as int]);
                }
            }
            assert(names_of(next) =~= names_of(pre).insert(names@[i as int]@));
        }
        set.insert(names[i].clone());
        i = i + 1;
    }
    assert(names@.subrange(0, names.len() as int) =~= names@);
    set
}

/// Local install state and disable lists, with the catalog.
pub struct PluginData {
    pub volts: VoltsList,
    pub installed: IndexMap<String, VoltMetadata>,
    /// Installs and removals in progress, by package identifier.
    pub installing: IndexMap<String, PluginInstallStatus>,
    pub disabled: StringHashSet,
    pub workspace_disabled: StringHashSet,
}

impl PluginData {
    pub open spec fn installed_entries(&self) -> Map<Seq<char>, VoltMetadata> {
        installed_values(self.installed)
    }

    pub open spec fn wf(&self) -> bool {
        &&& self.volts.wf()
        &&& keyed_wf(installed_keys(self.installed), installed_values(self.installed))
        &&& keyed_wf(tracker_keys(self.installing), tracker_values(self.installing))
    }

    pub open spec fn in_progress(&self) -> Map<Seq<char>, PluginInstallStatus> {
        tracker_values(self.installing)
    }

    pub open spec fn spec_disabled(&self, id: Seq<char>) -> bool {
        self.disabled@.contains(id) || self.workspace_disabled@.contains(id)
    }

    /// Disabled wins; an installed package whose catalog entry has another
    /// version needs an upgrade; otherwise installed or installable.
    pub open spec fn spec_status(&self, id: Seq<char>) -> PluginStatus {
        if self.spec_disabled(id) {
            PluginStatus::Disabled
        } else if self.installed_entries().contains_key(id) {
            if self.volts.entries().contains_key(id) && self.volts.entries()[id].version@
                != self.installed_entries()[id].version@ {
                PluginStatus::Upgrade
            } else {
                PluginStatus::Installed
            }
        } else {
            PluginStatus::Install
        }
    }

    /// A registry with nothing installed, the given disable lists, and an
    /// empty catalog for the empty query (its first page is
    /// `volts.first_page()`).
    pub fn new(disabled: Vec<String>, workspace_disabled: Vec<String>) -> (r: PluginData)
        ensures
            r.wf(),
            r.disabled@ == names_of(disabled@),
            r.workspace_disabled@ == names_of(workspace_disabled@),
            r.installed_entries().dom().is_empty(),
            r.in_progress().dom().is_empty(),
            r.volts.query@ == Seq::<char>::empty(),
            r.volts.keys().len() == 0,
            r.volts.entries().dom().is_empty(),
            r.volts.total == 0,
            r.volts.status == PluginLoadStatus::Loading,
            !r.volts.loading,
            r.volts.generation == 0,
    {
        let installed = installed_new();
        assert(installed_keys(installed).to_set() =~= installed_values(installed).dom());
        let installing = tracker_new();
        assert(tracker_keys(installing).to_set() =~= tracker_values(installing).dom());
        PluginData {
            volts: VoltsList::new(),
            installed,
            installing,
            disabled: name_set(&disabled),
            workspace_disabled: name_set(&workspace_disabled),
        }
    }

    /// Of the packages found on disk, those announced as already installed:
    /// the ones without an embedded module, in order.
    pub fn load(found: &Vec<VoltMetadata>) -> (r: Vec<VoltMetadata>)
        ensures
            r@ == found@.filter(|m: VoltMetadata| has_no_module(m)),
    {
        let mut r: Vec<VoltMetadata> = Vec::new();
        let mut i: usize = 0;
        while i < found.len()
            invariant
                0 <= i <= found.len(),
                r@ == found@.subrange(0, i as int).filter(|m: VoltMetadata| has_no_module(m)),
            decreases found.len() - i,
        {
            proof {
                let next = found@.subrange(0, i + 1);
                assert(next.drop_last() =~= found@.subrange(0, i as int));
                assert(next.last() == found@[i as int]);
                reveal(Seq::filter);
                let pred = |m: VoltMetadata| has_no_module(m);
                assert(next.filter(pred) == if pred(next.last()) {
                    next.drop_last().filter(pred).push(next.last())
                } else {
                    next.drop_last().filter(pred)
                });
            }
            if found[i].wasm.is_none() {
                r.push(found[i].duplicate());
            }
            i = i + 1;
        }
        assert(found@.subrange(0, found.len() as int) =~= found@);
        r
    }

    /// Records a package as installed, under its identifier.
    pub fn volt_installed(&mut self, meta: VoltMetadata)
        requires
            old(self).wf(),
        ensures
            final(self).wf(),
            final(self).installed_entries() == old(self).installed_entries().insert(meta.spec_id(), meta),
            final(self).volts == old(self).volts,
            final(self).installing == old(self).installing,
            final(self).disabled == old(self).disabled,
            final(self).workspace_disabled == old(self).workspace_disabled,
    {
        let id = meta.id();
        proof {
            lemma_insert_keeps_wf(installed_keys(self.installed), installed_values(self.installed), id@, meta);
        }
        installed_insert(&mut self.installed, id, meta);
    }

    /// Forgets an uninstalled package.
    pub fn volt_removed(&mut self, id: &str)
        requires
            old(self).wf(),
        ensures
            final(self).wf(),
            final(self).installed_entries() == old(self).installed_entries().remove(id@),
            final(self).volts == old(self).volts,
            final(self).installing == old(self).installing,
            final(self).disabled == old(self).disabled,
            final(self).workspace_disabled == old(self).workspace_disabled,
    {
        proof {
            lemma_remove_keeps_wf(installed_keys(self.installed), installed_values(self.installed), id@);
        }
        installed_remove(&mut self.installed, id);
    }

    /// Applies a notification to the registry: an install or removal under
    /// way is noted with its error message; an installed package is
    /// recorded and a removed one forgotten, and either leaves the tracker.
    pub fn record(&mut self, n: &PluginNotification)
        requires
            old(self).wf(),
        ensures
            final(self).wf(),
            final(self).volts == old(self).volts,
            final(self).disabled == old(self).disabled,
            final(self).workspace_disabled == old(self).workspace_disabled,
            final(self).installed_entries() == installed_after(old(self).installed_entries(), *n),
            final(self).in_progress() == in_progress_after(old(self).in_progress(), *n),
    {
        match n {
            PluginNotification::VoltInstalling(info, e) => {
                let id = info.id();
                self.track(id, PluginOperation::Install, e);
            },
            PluginNotification::VoltRemoving(meta, e) => {
                let id = meta.id();
                self.track(id, PluginOperation::Remove, e);
            },
            PluginNotification::VoltInstalled(meta, _) => {
                let id = meta.id();
                self.volt_installed(meta.duplicate());
                self.untrack(id.as_str());
            },
            PluginNotification::VoltRemoved(info, _) => {
                let id = info.id();
                self.volt_removed(id.as_str());
                self.untrack(id.as_str());
            },
        }
    }

    fn track(&mut self, id: String, operation: PluginOperation, error: &String)
        requires
            old(self).wf(),
        ensures
            final(self).wf(),
            final(self).in_progress() == old(self).in_progress().insert(
                id@,
                PluginInstallStatus { operation, error: *error },
            ),
            final(self).volts == old(self).volts,
            final(self).installed == old(self).installed,
            final(self).disabled == old(self).disabled,
            final(self).workspace_disabled == old(self).workspace_disabled,
    {
        let status = PluginInstallStatus { operation, error: error.clone() };
        proof {
            lemma_insert_keeps_wf(tracker_keys(self.installing), tracker_values(self.installing), id@, status);
        }
        tracker_insert(&mut self.installing, id, status);
    }

    fn untrack(&mut self, id: &str)
        requires
            old(self).wf(),
        ensures
            final(self).wf(),
            final(self).in_progress() == old(self).in_progress().remove(id@),
            final(self).volts == old(self).volts,
            final(self).installed == old(self).installed,
            final(self).disabled == old(self).disabled,
            final(self).workspace_disabled == old(self).workspace_disabled,
    {
        proof {
            lemma_remove_keeps_wf(tracker_keys(self.installing), tracker_values(self.installing), id@);
        }
        tracker_remove(&mut self.installing, id);
    }

    /// Whether the package is disabled for the user or for the workspace.
    pub fn plugin_disabled(&self, id: &str) -> (r: bool)
        ensures
            r == self.spec_disabled(id@),
    {
        self.disabled.contains(id) || self.workspace_disabled.contains(id)
    }

    /// The package's status, computed afresh from the current state.
    pub fn plugin_status(&self, id: &str) -> (r: PluginStatus)
        ensures
            r == self.spec_status(id@),
    {
        if self.plugin_disabled(id) {
            return PluginStatus::Disabled;
        }
        match installed_get(&self.installed, id) {
            Some(meta) => match catalog_get(&self.volts.volts, id) {
                Some(volt) => {
                    if meta.version == volt.version {
                        PluginStatus::Installed
                    } else {
                        PluginStatus::Upgrade
                    }
                },
                None => PluginStatus::Installed,
            },
            None => PluginStatus::Install,
        }
    }

    /// The markdown to show for a readme request that got HTTP `status` and
    /// `body`: the body on success, else a fixed placeholder.
    pub fn download_readme(status: u16, body: String) -> (r: String)
        ensures
            status == 200 ==> r@ == body@,
            status != 200 ==> r@ == NO_README@,
    {
        if status != 200 {
            return String::from_str(NO_README);
        }
        body
    }

    /// Starts an install: announces it with no error, then hands a package
    /// with an embedded module to the backend and downloads any other.
    pub fn install_volt(volt: VoltInfo) -> (r: Vec<PluginAction>)
        ensures
            r@.len() == 2,
            r@[0] matches PluginAction::Notify(PluginNotification::VoltInstalling(v, e))
                && v == volt && e@.len() == 0,
            volt.wasm ==> r@[1] == PluginAction::BackendInstall(volt),
            !volt.wasm ==> r@[1] == PluginAction::Download(volt),
    {
        let first = PluginAction::Notify(PluginNotification::VoltInstalling(volt.duplicate(), String::new()));
        let second = if volt.wasm {
            PluginAction::BackendInstall(volt)
        } else {
            PluginAction::Download(volt)
        };
        vec![first, second]
    }

    /// The notification that ends a download: the installed package on
    /// success, else the install with an error message.
    pub fn download_finished(volt: VoltInfo, result: Option<VoltMetadata>) -> (r: PluginNotification)
        ensures
            match result {
                Some(meta) => r == PluginNotification::VoltInstalled(meta, false),
                None => r matches PluginNotification::VoltInstalling(v, e) && v == volt
                    && e@ == DOWNLOAD_FAILED@,
            },
    {
        match result {
            Some(meta) => PluginNotification::VoltInstalled(meta, false),
            None => PluginNotification::VoltInstalling(volt, String::from_str(DOWNLOAD_FAILED)),
        }
    }

    /// Starts a removal: announces it with no error, then hands a package
    /// with an embedded module to the backend; any other has its directory
    /// deleted, or, with no recorded directory, is announced with an error
    /// and left alone.
    pub fn remove_volt(meta: VoltMetadata) -> (r: Vec<PluginAction>)
        ensures
            r@.len() == 2,
            r@[0] matches PluginAction::Notify(PluginNotification::VoltRemoving(m, e)) && m == meta
                && e@.len() == 0,
            meta.wasm is Some ==> r@[1] == PluginAction::BackendRemove(meta),
            meta.wasm is None ==> (match meta.dir {
                Some(d) => r@[1] matches PluginAction::RemoveDir(m, p) && m == meta && p == d,
                None => r@[1] matches PluginAction::Notify(PluginNotification::VoltRemoving(m, e))
                    && m == meta && e@ == NO_DIRECTORY@,
            }),
    {
        let first = PluginAction::Notify(PluginNotification::VoltRemoving(meta.duplicate(), String::new()));
        let second = if meta.wasm.is_some() {
            PluginAction::BackendRemove(meta)
        } else {
            match &meta.dir {
                Some(d) => {
                    let d = d.clone();
                    PluginAction::RemoveDir(meta, d)
                },
                None => PluginAction::Notify(
                    PluginNotification::VoltRemoving(meta, String::from_str(NO_DIRECTORY)),
                ),
            }
        };
        vec![first, second]
    }

    /// The notification that ends a directory deletion: the removed package
    /// on success, else the removal with an error message.
    pub fn remove_finished(meta: VoltMetadata, deleted: bool) -> (r: PluginNotification)
        ensures
            deleted ==> r == PluginNotification::VoltRemoved(meta.spec_info(), false),
            !deleted ==> (r matches PluginNotification::VoltRemoving(m, e) && m == meta
                && e@ == REMOVE_FAILED@),
    {
        if deleted {
            PluginNotification::VoltRemoved(meta.info(), false)
        } else {
            PluginNotification::VoltRemoving(meta, String::from_str(REMOVE_FAILED))
        }
    }
}

/// Disable wins: a package on either disable list is `Disabled`, whatever
/// its install and catalog state.
pub proof fn lemma_disabled_wins(data: PluginData, id: Seq<char>)
    requires
        data.disabled@.contains(id) || data.workspace_disabled@.contains(id),
    ensures
        data.spec_status(id) == PluginStatus::Disabled,
{
}

/// An installed, enabled package whose catalog entry carries another version
/// needs an upgrade.
pub proof fn lemma_upgrade_detected(data: PluginData, id: Seq<char>)
    requires
        !data.disabled@.contains(id),
        !data.workspace_disabled@.contains(id),
        data.installed_entries().contains_key(id),
        data.volts.entries().contains_key(id),
        data.volts.entries()[id].version@ != data.installed_entries()[id].version@,
    ensures
        data.spec_status(id) == PluginStatus::Upgrade,
{
}

} // verus!
