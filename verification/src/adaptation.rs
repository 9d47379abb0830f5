//! Adapting a running server to change: what a reloaded configuration
//! changed and what must follow from it, and how the network interfaces
//! seen now differ from those seen before.
use vstd::prelude::*;
use crate::config::{dir_views, entry_for, find_entry, lemma_entry_for, AppConfig, DirectoryView, MonitoredDirectoryConfig, NetworkInterfaceConfig};
use crate::config_report::{dir_paths, distinct_where, law_directory_changes_partition, paths_where};
use crate::platform::{any_suitable, interface_views, is_primary_at, primary_interface_index, InterfaceView, NetworkInterface, PlatformInfo};
use crate::text::{chars_of, same_chars, texts};

verus! {

// ---------------------------------------------------------------------------
// Configuration changes
// ---------------------------------------------------------------------------

/// What a new configuration changed relative to the running one.
#[derive(Debug, Clone)]
pub struct ConfigChangePlan {
    /// The entries of directories that are new, to be scanned (the first
    /// entry of each new path).
    pub added_directories: Vec<MonitoredDirectoryConfig>,
    /// The paths of directories no longer monitored, whose records go.
    pub removed_directories: Vec<String>,
    /// The set of monitored paths differs.
    pub directories_changed: bool,
    /// Watching for file changes was switched on or off.
    pub watch_changed: bool,
    pub ssdp_port_changed: bool,
    pub interface_selection_changed: bool,
    pub server_port_changed: bool,
    pub server_interface_changed: bool,
}

/// The monitored paths of a configuration.
pub open spec fn monitored_paths(c: AppConfig) -> Seq<Seq<char>> {
    dir_paths(c.dirs())
}

/// The first entry of `dirs` for each of `paths`.
pub open spec fn entries_for(dirs: Seq<DirectoryView>, paths: Seq<Seq<char>>) -> Seq<DirectoryView> {
    paths.map_values(|p: Seq<char>| dirs[entry_for(dirs, p).unwrap()])
}

impl ConfigChangePlan {
    /// Exactly what changed from `old` to `new`.
    pub open spec fn describes(self, old: AppConfig, new: AppConfig) -> bool {
        let o = monitored_paths(old);
        let n = monitored_paths(new);
        &&& dir_views(self.added_directories@) == entries_for(new.dirs(), distinct_where(n, o, false))
        &&& texts(self.removed_directories@) == distinct_where(o, n, false)
        &&& self.directories_changed == (n.to_set() != o.to_set())
        &&& self.watch_changed == (old.media.watch_for_changes != new.media.watch_for_changes)
        &&& self.ssdp_port_changed == (old.network.ssdp_port != new.network.ssdp_port)
        &&& self.interface_selection_changed == (old.network.interface_selection@
            != new.network.interface_selection@)
        &&& self.server_port_changed == (old.server.port != new.server.port)
        &&& self.server_interface_changed == (old.server.interface@ != new.server.interface@)
    }

    /// The SSDP settings changed (the SSDP service would need a restart).
    pub fn network_changed(&self) -> (res: bool)
        ensures
            res == (self.ssdp_port_changed || self.interface_selection_changed),
    {
        self.ssdp_port_changed || self.interface_selection_changed
    }

    /// The HTTP server settings changed (the application would need a restart).
    pub fn server_changed(&self) -> (res: bool)
        ensures
            res == (self.server_port_changed || self.server_interface_changed),
    {
        self.server_port_changed || self.server_interface_changed
    }

    /// Anything that the running server acts on changed.
    pub fn changes_detected(&self) -> (res: bool)
        ensures
            res == (self.directories_changed || self.watch_changed || self.ssdp_port_changed
                || self.interface_selection_changed || self.server_port_changed || self.server_interface_changed),
    {
        self.directories_changed || self.watch_changed || self.network_changed() || self.server_changed()
    }
}

fn same_selection(a: &NetworkInterfaceConfig, b: &NetworkInterfaceConfig) -> (res: bool)
    ensures
        res == (a@ == b@),
{
    match (a, b) {
        (NetworkInterfaceConfig::Auto, NetworkInterfaceConfig::Auto) => true,
        (NetworkInterfaceConfig::All, NetworkInterfaceConfig::All) => true,
        (NetworkInterfaceConfig::Specific(x), NetworkInterfaceConfig::Specific(y)) => same_chars(
            chars_of(x.as_str()).as_slice(),
            chars_of(y.as_str()).as_slice(),
        ),
        _ => false,
    }
}

proof fn lemma_sets_differ(o: Seq<Seq<char>>, n: Seq<Seq<char>>)
    ensures
        (n.to_set() != o.to_set()) == (distinct_where(n, o, false).len() > 0 || distinct_where(o, n, false).len() > 0),
{
    law_directory_changes_partition(o, n);
    let added = distinct_where(n, o, false);
    let removed = distinct_where(o, n, false);
    if added.len() > 0 {
        assert(added.contains(added[0]));
        assert(n.to_set().contains(added[0]) && !o.to_set().contains(added[0]));
    } else if removed.len() > 0 {
        assert(removed.contains(removed[0]));
        assert(o.to_set().contains(removed[0]) && !n.to_set().contains(removed[0]));
    } else {
        assert forall|x: Seq<char>| n.to_set().contains(x) <==> o.to_set().contains(x) by {
            if n.contains(x) && !o.contains(x) {
                assert(added.contains(x));
            }
            if o.contains(x) && !n.contains(x) {
                assert(removed.contains(x));
            }
        }
        assert(n.to_set() =~= o.to_set());
    }
}

/// Work out what a new configuration changed relative to the running one.
pub fn plan_configuration_changes(old_config: &AppConfig, new_config: &AppConfig) -> (res: ConfigChangePlan)
    ensures
        res.describes(*old_config, *new_config),
{
    let o = old_config.get_monitored_directories();
    let n = new_config.get_monitored_directories();
    let added_paths = paths_where(&n, &o, false);
    let removed = paths_where(&o, &n, false);
    let ghost nd = new_config.dirs();
    proof {
        assert(texts(o@) =~= dir_paths(old_config.dirs()));
        assert(texts(n@) =~= dir_paths(new_config.dirs()));
        law_directory_changes_partition(texts(o@), texts(n@));
        lemma_sets_differ(texts(o@), texts(n@));
    }
    let mut added: Vec<MonitoredDirectoryConfig> = Vec::new();
    let mut i: usize = 0;
    while i < added_paths.len()
        invariant
            i <= added_paths.len(),
            nd == new_config.dirs(),
            nd == dir_views(new_config.media.directories@),
            texts(n@) == dir_paths(nd),
            forall|x: Seq<char>| texts(added_paths@).contains(x) ==> texts(n@).contains(x),
            dir_views(added@) == entries_for(nd, texts(added_paths@).subrange(0, i as int)),
        decreases added_paths.len() - i,
    {
        let p = &added_paths[i];
        proof {
            assert(texts(added_paths@)[i as int] == p@);
            assert(texts(added_paths@).contains(p@));
            assert(texts(n@).contains(p@));
            let k = choose|k: int| 0 <= k < texts(n@).len() && texts(n@)[k] == p@;
            assert(nd[k].path == p@);
            lemma_entry_for(nd, p@);
        }
        match find_entry(&new_config.media.directories, p.as_str()) {
            Some(k) => {
                let ghost prev = added@;
                added.push(new_config.media.directories[k].copy());
                proof {
                    assert(dir_views(added@) =~= dir_views(prev).push(nd[k as int]));
                    assert(texts(added_paths@).subrange(0, i + 1) =~= texts(added_paths@).subrange(0, i as int).push(p@));
                    assert(entries_for(nd, texts(added_paths@).subrange(0, i + 1)) =~= entries_for(
                        nd,
                        texts(added_paths@).subrange(0, i as int),
                    ).push(nd[k as int]));
                }
            },
            None => {
                proof {
                    assert(nd[choose|k: int| 0 <= k < texts(n@).len() && texts(n@)[k] == p@].path == p@);
                }
            },
        }
        i = i + 1;
    }
    proof {
        assert(texts(added_paths@).subrange(0, added_paths@.len() as int) =~= texts(added_paths@));
    }
    let directories_changed = added_paths.len() > 0 || removed.len() > 0;
    ConfigChangePlan {
        added_directories: added,
        removed_directories: removed,
        directories_changed,
        watch_changed: old_config.media.watch_for_changes != new_config.media.watch_for_changes,
        ssdp_port_changed: old_config.network.ssdp_port != new_config.network.ssdp_port,
        interface_selection_changed: !same_selection(
            &old_config.network.interface_selection,
            &new_config.network.interface_selection,
        ),
        server_port_changed: old_config.server.port != new_config.server.port,
        server_interface_changed: !same_chars(
            chars_of(old_config.server.interface.as_str()).as_slice(),
            chars_of(new_config.server.interface.as_str()).as_slice(),
        ),
    }
}

/// Whether the in-memory library must be reloaded after directory changes:
/// a scan of a new directory changed something, or a removed directory
/// had records.
pub fn needs_cache_reload(scans_changed: &Vec<bool>, removed_record_counts: &Vec<usize>) -> (res: bool)
    ensures
        res == ((exists|i: int| 0 <= i < scans_changed@.len() && scans_changed@[i]) || (exists|j: int|
            0 <= j < removed_record_counts@.len() && removed_record_counts@[j] > 0)),
{
    let mut i: usize = 0;
    while i < scans_changed.len()
        invariant
            i <= scans_changed.len(),
            forall|k: int| 0 <= k < i ==> !scans_changed@[k],
        decreases scans_changed.len() - i,
    {
        if scans_changed[i] {
            return true;
        }
        i = i + 1;
    }
    let mut j: usize = 0;
    while j < removed_record_counts.len()
        invariant
            j <= removed_record_counts.len(),
            forall|k: int| 0 <= k < scans_changed@.len() ==> !scans_changed@[k],
            forall|k: int| 0 <= k < j ==> removed_record_counts@[k] == 0,
        decreases removed_record_counts.len() - j,
    {
        if removed_record_counts[j] > 0 {
            return true;
        }
        j = j + 1;
    }
    false
}

/// A configuration compared with itself changes nothing.
pub proof fn law_unchanged_configuration_changes_nothing(c: AppConfig, plan: ConfigChangePlan)
    requires
        plan.describes(c, c),
    ensures
        plan.added_directories@.len() == 0,
        plan.removed_directories@.len() == 0,
        !plan.directories_changed,
        !(plan.directories_changed || plan.watch_changed || plan.ssdp_port_changed
            || plan.interface_selection_changed || plan.server_port_changed || plan.server_interface_changed),
{
    let p = monitored_paths(c);
    law_directory_changes_partition(p, p);
    let d = distinct_where(p, p, false);
    if d.len() > 0 {
        let x = d[0];
        assert(d.contains(x));
        assert(d.contains(x) <==> (p.contains(x) && !p.contains(x)));
    }
    assert(d.len() == 0);
    assert(entries_for(c.dirs(), d).len() == d.len());
    assert(dir_views(plan.added_directories@).len() == plan.added_directories@.len());
    assert(plan.added_directories@.len() == d.len());
    assert(texts(plan.removed_directories@).len() == d.len());
    assert(dir_views(plan.added_directories@).len() == plan.added_directories@.len());
    assert(texts(plan.removed_directories@).len() == plan.removed_directories@.len());
}

// ---------------------------------------------------------------------------
// Network interface changes
// ---------------------------------------------------------------------------

/// Two interface records agree on name, address and state.
pub open spec fn same_interface(a: InterfaceView, b: InterfaceView) -> bool {
    a.name == b.name && a.ip_address == b.ip_address && a.is_up == b.is_up
}

/// Some interface of `s` has this name.
pub open spec fn has_name(s: Seq<InterfaceView>, name: Seq<char>) -> bool {
    exists|j: int| 0 <= j < s.len() && s[j].name == name
}

/// Some interface of `b` agrees with `x` on name, address and state.
pub open spec fn has_counterpart(b: Seq<InterfaceView>, x: InterfaceView) -> bool {
    exists|j: int| 0 <= j < b.len() && same_interface(x, b[j])
}

/// The interfaces differ: their number changed, or some old interface has
/// no counterpart with the same name, address and state.
pub open spec fn interfaces_differ(a: Seq<InterfaceView>, b: Seq<InterfaceView>) -> bool {
    a.len() != b.len() || exists|i: int| 0 <= i < a.len() && !has_counterpart(b, #[trigger] a[i])
}

/// The positions below `n` that satisfy `p`, in increasing order.
pub open spec fn positions(n: nat, p: spec_fn(int) -> bool) -> Seq<int>
    decreases n,
{
    if n == 0 {
        Seq::empty()
    } else {
        let r = positions((n - 1) as nat, p);
        if p(n - 1) {
            r.push(n - 1)
        } else {
            r
        }
    }
}

/// The position of the first interface of `s` with this name.
pub open spec fn first_named(s: Seq<InterfaceView>, name: Seq<char>) -> int {
    choose|i: int| 0 <= i < s.len() && s[i].name == name && forall|j: int| 0 <= j < i ==> s[j].name != name
}

/// The primary interface of a list, if there is a suitable one.
pub open spec fn primary_of(s: Seq<InterfaceView>) -> Option<InterfaceView> {
    if any_suitable(s) {
        Some(s[choose|i: int| is_primary_at(s, i)])
    } else {
        None
    }
}

/// How the primary interface changed.
#[derive(Debug, Clone, Copy, PartialEq, Eq, Structural)]
pub enum PrimaryChange {
    /// Same name and address, or no primary interface before or after.
    Unchanged,
    /// Another interface, or another address, is primary now.
    Changed,
    /// There was a primary interface and there is none now.
    Lost,
    /// There was no primary interface and there is one now.
    Available,
}

/// The change of primary interface from `a` to `b`.
pub open spec fn primary_change(a: Seq<InterfaceView>, b: Seq<InterfaceView>) -> PrimaryChange {
    match (primary_of(a), primary_of(b)) {
        (Some(o), Some(n)) => if o.name != n.name || o.ip_address != n.ip_address {
            PrimaryChange::Changed
        } else {
            PrimaryChange::Unchanged
        },
        (Some(_), None) => PrimaryChange::Lost,
        (None, Some(_)) => PrimaryChange::Available,
        (None, None) => PrimaryChange::Unchanged,
    }
}

/// How much of the DLNA function the interfaces now allow.
#[derive(Debug, Clone, Copy, PartialEq, Eq, Structural)]
pub enum Degradation {
    /// Some interface supports multicast.
    Normal,
    /// No interface at all.
    NoInterfaces,
    /// Interfaces, but none with multicast: discovery may fail.
    NoMulticast,
}

/// The degradation the interfaces `b` imply.
pub open spec fn degradation_of(b: Seq<InterfaceView>) -> Degradation {
    if b.len() == 0 {
        Degradation::NoInterfaces
    } else if forall|j: int| 0 <= j < b.len() ==> !b[j].supports_multicast {
        Degradation::NoMulticast
    } else {
        Degradation::Normal
    }
}

/// How the interfaces seen now differ from those seen before.
#[derive(Debug, Clone)]
pub struct NetworkChangeReport {
    pub interfaces_changed: bool,
    /// Positions, among the old interfaces, of those whose name is gone.
    pub removed: Vec<usize>,
    /// Positions, among the new interfaces, of those whose name is new.
    pub added: Vec<usize>,
    /// For each new interface whose name was known but whose address
    /// differs: the old interface's position, then the new one's.
    pub address_changed: Vec<(usize, usize)>,
    /// The same for interfaces that went up or down.
    pub status_changed: Vec<(usize, usize)>,
    pub primary: PrimaryChange,
    pub degradation: Degradation,
}

/// Two interfaces differ in address (when `address`) or else in state.
pub open spec fn differs_in(x: InterfaceView, y: InterfaceView, address: bool) -> bool {
    if address {
        x.ip_address != y.ip_address
    } else {
        x.is_up != y.is_up
    }
}

/// The old position and the new one for each new interface whose name is
/// known from before and that differs from its first namesake in address
/// (when `address`) or else in state.
pub open spec fn renamed_pairs(a: Seq<InterfaceView>, b: Seq<InterfaceView>, n: nat, address: bool) -> Seq<(int, int)>
    decreases n,
{
    if n == 0 {
        Seq::empty()
    } else {
        let r = renamed_pairs(a, b, (n - 1) as nat, address);
        let j = n - 1;
        if has_name(a, b[j].name) && differs_in(a[first_named(a, b[j].name)], b[j], address) {
            r.push((first_named(a, b[j].name), j))
        } else {
            r
        }
    }
}

/// The integer values of a list of positions.
pub open spec fn as_ints(v: Seq<usize>) -> Seq<int> {
    v.map_values(|k: usize| k as int)
}

/// The integer values of a list of position pairs.
pub open spec fn pairs_as_ints(v: Seq<(usize, usize)>) -> Seq<(int, int)> {
    v.map_values(|k: (usize, usize)| (k.0 as int, k.1 as int))
}

impl NetworkChangeReport {
    /// Exactly how `b` differs from `a`.
    pub open spec fn describes(self, a: Seq<InterfaceView>, b: Seq<InterfaceView>) -> bool {
        &&& self.interfaces_changed == interfaces_differ(a, b)
        &&& as_ints(self.removed@) == positions(a.len(), |i: int| !has_name(b, a[i].name))
        &&& as_ints(self.added@) == positions(b.len(), |j: int| !has_name(a, b[j].name))
        &&& pairs_as_ints(self.address_changed@) == renamed_pairs(a, b, b.len(), true)
        &&& pairs_as_ints(self.status_changed@) == renamed_pairs(a, b, b.len(), false)
        &&& self.primary == primary_change(a, b)
        &&& self.degradation == degradation_of(b)
    }
}

fn name_index(s: &Vec<NetworkInterface>, name: &String) -> (res: Option<usize>)
    ensures
        match res {
            Some(i) => has_name(interface_views(s@), name@) && i as int == first_named(interface_views(s@), name@)
                && i < s@.len(),
            None => !has_name(interface_views(s@), name@),
        },
{
    let ghost v = interface_views(s@);
    let nm = chars_of(name.as_str());
    let mut i: usize = 0;
    while i < s.len()
        invariant
            i <= s.len(),
            v == interface_views(s@),
            nm@ == name@,
            forall|j: int| 0 <= j < i ==> v[j].name != name@,
        decreases s.len() - i,
    {
        if same_chars(chars_of(s[i].name.as_str()).as_slice(), nm.as_slice()) {
            proof {
                assert(v[i as int].name == name@);
                let c = first_named(v, name@);
                assert(0 <= i < v.len() && v[i as int].name == name@ && forall|j: int| 0 <= j < i ==> v[j].name != name@);
                if c < i {
                    assert(v[c].name != name@);
                }
                if c > i {
                    assert(v[i as int].name != name@);
                }
            }
            return Some(i);
        }
        i = i + 1;
    }
    None
}

proof fn lemma_primary_unique(s: Seq<InterfaceView>, i: int, j: int)
    requires
        is_primary_at(s, i),
        is_primary_at(s, j),
    ensures
        i == j,
{
    if i < j {
        assert(s[j].kind.rank() < s[i].kind.rank());
    }
    if j < i {
        assert(s[i].kind.rank() < s[j].kind.rank());
    }
}

fn primary_view_of(ifaces: &Vec<NetworkInterface>) -> (res: Option<usize>)
    ensures
        match res {
            Some(i) => i < ifaces@.len() && primary_of(interface_views(ifaces@)) == Some(
                interface_views(ifaces@)[i as int],
            ),
            None => primary_of(interface_views(ifaces@)) is None,
        },
{
    let r = primary_interface_index(ifaces);
    proof {
        let s = interface_views(ifaces@);
        if let Some(i) = r {
            let c = choose|k: int| is_primary_at(s, k);
            lemma_primary_unique(s, i as int, c);
        }
    }
    r
}

fn interface_changed_somewhere(old: &Vec<NetworkInterface>, new: &Vec<NetworkInterface>) -> (res: bool)
    ensures
        res == interfaces_differ(interface_views(old@), interface_views(new@)),
{
    let ghost a = interface_views(old@);
    let ghost b = interface_views(new@);
    if old.len() != new.len() {
        return true;
    }
    let mut i: usize = 0;
    while i < old.len()
        invariant
            i <= old.len(),
            a == interface_views(old@),
            b == interface_views(new@),
            forall|k: int| 0 <= k < i ==> has_counterpart(b, #[trigger] a[k]),
        decreases old.len() - i,
    {
        let mut j: usize = 0;
        let mut found = false;
        while j < new.len()
            invariant
                j <= new.len(),
                i < old.len(),
                a == interface_views(old@),
                b == interface_views(new@),
                !found ==> forall|k: int| 0 <= k < j ==> !same_interface(a[i as int], b[k]),
                found ==> exists|k: int| 0 <= k < b.len() && same_interface(a[i as int], b[k]),
            decreases new.len() - j,
        {
            if same_chars(chars_of(old[i].name.as_str()).as_slice(), chars_of(new[j].name.as_str()).as_slice())
                && old[i].ip_address == new[j].ip_address && old[i].is_up == new[j].is_up {
                proof {
                    assert(same_interface(a[i as int], b[j as int]));
                }
                found = true;
            }
            j = j + 1;
        }
        if !found {
            proof {
                assert(!has_counterpart(b, a[i as int]));
            }
            return true;
        }
        i = i + 1;
    }
    false
}

fn absent_names(from: &Vec<NetworkInterface>, other: &Vec<NetworkInterface>) -> (res: Vec<usize>)
    ensures
        as_ints(res@) == positions(
            interface_views(from@).len(),
            |i: int| !has_name(interface_views(other@), interface_views(from@)[i].name),
        ),
{
    let ghost a = interface_views(from@);
    let ghost b = interface_views(other@);
    let ghost p = |i: int| !has_name(b, a[i].name);
    let mut r: Vec<usize> = Vec::new();
    let mut i: usize = 0;
    while i < from.len()
        invariant
            i <= from.len(),
            a == interface_views(from@),
            b == interface_views(other@),
            p == (|i: int| !has_name(b, a[i].name)),
            as_ints(r@) == positions(i as nat, p),
        decreases from.len() - i,
    {
        if name_index(other, &from[i].name).is_none() {
            let ghost prev = r@;
            r.push(i);
            proof {
                assert(as_ints(r@) =~= as_ints(prev).push(i as int));
            }
        }
        i = i + 1;
    }
    r
}

#[verifier::rlimit(40)]
fn changed_pairs(old: &Vec<NetworkInterface>, new: &Vec<NetworkInterface>, address: bool) -> (res: Vec<(usize, usize)>)
    ensures
        pairs_as_ints(res@) == renamed_pairs(interface_views(old@), interface_views(new@), new@.len() as nat, address),
{
    let ghost a = interface_views(old@);
    let ghost b = interface_views(new@);
    let mut r: Vec<(usize, usize)> = Vec::new();
    let mut j: usize = 0;
    while j < new.len()
        invariant
            j <= new.len(),
            a == interface_views(old@),
            b == interface_views(new@),
            pairs_as_ints(r@) == renamed_pairs(a, b, j as nat, address),
        decreases new.len() - j,
    {
        match name_index(old, &new[j].name) {
            Some(i) => {
                let differs = if address {
                    old[i].ip_address != new[j].ip_address
                } else {
                    old[i].is_up != new[j].is_up
                };
                proof {
                    assert(b[j as int] == new@[j as int]@);
                    assert(a[i as int] == old@[i as int]@);
                    assert(differs == differs_in(a[i as int], b[j as int], address));
                }
                if differs {
                    let ghost prev = r@;
                    r.push((i, j));
                    proof {
                        assert(pairs_as_ints(r@) =~= pairs_as_ints(prev).push((i as int, j as int)));
                    }
                }
            },
            None => {},
        }
        j = j + 1;
    }
    r
}

/// Compare the interfaces seen before with those seen now.
pub fn compare_network_interfaces(before: &PlatformInfo, now: &PlatformInfo) -> (res: NetworkChangeReport)
    ensures
        res.describes(interface_views(before.network_interfaces@), interface_views(now.network_interfaces@)),
{
    let old = &before.network_interfaces;
    let new = &now.network_interfaces;
    let ghost a = interface_views(old@);
    let ghost b = interface_views(new@);
    let changed = interface_changed_somewhere(old, new);
    let removed = absent_names(old, new);
    let added = absent_names(new, old);
    let address_changed = changed_pairs(old, new, true);
    let status_changed = changed_pairs(old, new, false);
    let primary = match (primary_view_of(old), primary_view_of(new)) {
        (Some(i), Some(j)) => {
            let differs = !same_chars(chars_of(old[i].name.as_str()).as_slice(), chars_of(new[j].name.as_str()).as_slice())
                || old[i].ip_address != new[j].ip_address;
            if differs {
                PrimaryChange::Changed
            } else {
                PrimaryChange::Unchanged
            }
        },
        (Some(_), None) => PrimaryChange::Lost,
        (None, Some(_)) => PrimaryChange::Available,
        (None, None) => PrimaryChange::Unchanged,
    };
    let degradation = if new.len() == 0 {
        Degradation::NoInterfaces
    } else {
        let mut k: usize = 0;
        let mut any = false;
        while k < new.len()
            invariant
                k <= new.len(),
                b == interface_views(new@),
                !any ==> forall|m: int| 0 <= m < k ==> !b[m].supports_multicast,
                any ==> exists|m: int| 0 <= m < b.len() && b[m].supports_multicast,
            decreases new.len() - k,
        {
            if new[k].supports_multicast {
                proof {
                    assert(b[k as int].supports_multicast);
                }
                any = true;
            }
            k = k + 1;
        }
        if any {
            Degradation::Normal
        } else {
            Degradation::NoMulticast
        }
    };
    NetworkChangeReport {
        interfaces_changed: changed,
        removed,
        added,
        address_changed,
        status_changed,
        primary,
        degradation,
    }
}

/// Interfaces compared with themselves show no change at all (when no two
/// of them share a name).
pub proof fn law_same_interfaces_show_no_change(s: Seq<InterfaceView>, r: NetworkChangeReport)
    requires
        r.describes(s, s),
        forall|i: int, j: int| 0 <= i < j < s.len() ==> s[i].name != s[j].name,
    ensures
        !r.interfaces_changed,
        r.removed@.len() == 0,
        r.added@.len() == 0,
        r.address_changed@.len() == 0,
        r.status_changed@.len() == 0,
        r.primary == PrimaryChange::Unchanged,
{
    assert forall|i: int| 0 <= i < s.len() implies has_counterpart(s, #[trigger] s[i]) by {
        assert(same_interface(s[i], s[i]));
    }
    lemma_no_positions(s.len(), |i: int| !has_name(s, s[i].name), s);
    lemma_no_pairs(s, s.len(), true);
    lemma_no_pairs(s, s.len(), false);
    assert(as_ints(r.removed@).len() == r.removed@.len());
    assert(as_ints(r.added@).len() == r.added@.len());
    assert(pairs_as_ints(r.address_changed@).len() == r.address_changed@.len());
    assert(pairs_as_ints(r.status_changed@).len() == r.status_changed@.len());
}

proof fn lemma_no_positions(n: nat, p: spec_fn(int) -> bool, s: Seq<InterfaceView>)
    requires
        n <= s.len(),
        p == (|i: int| !has_name(s, s[i].name)),
    ensures
        positions(n, p).len() == 0,
    decreases n,
{
    if n > 0 {
        lemma_no_positions((n - 1) as nat, p, s);
        assert(s[n - 1].name == s[n - 1].name);
        assert(has_name(s, s[n - 1].name));
    }
}

proof fn lemma_no_pairs(s: Seq<InterfaceView>, n: nat, address: bool)
    requires
        n <= s.len(),
        forall|i: int, j: int| 0 <= i < j < s.len() ==> s[i].name != s[j].name,
    ensures
        renamed_pairs(s, s, n, address).len() == 0,
    decreases n,
{
    if n > 0 {
        lemma_no_pairs(s, (n - 1) as nat, address);
        let j = n - 1;
        assert(0 <= j < s.len() && s[j].name == s[j].name);
        let f = first_named(s, s[j].name);
        assert(0 <= f < s.len() && s[f].name == s[j].name);
        if f < j {
            assert(s[f].name != s[j].name);
        }
        if f > j {
            assert(s[j].name != s[f].name);
        }
    }
}

} // verus!
