//! The registry of services and the records kept on disk: the content of a
//! service descriptor, a registry entry and a run record.
use vstd::prelude::*;
use crate::command::{DmgrErr, ErrorKind};
use crate::paths::{
    descriptor_path, descriptor_path_spec, file_stem, file_stem_spec, repo_path_for,
    grandparent_spec, registry_path, registry_path_spec,
};
use crate::service::Service;
use crate::text::{ends_with, has_suffix, same_text};

verus! {

/// The fields of a service descriptor file, each as written there.
#[derive(Debug)]
pub struct ServiceConfigContent {
    pub aliases: Option<Vec<String>>,
    pub image_name: Option<String>,
    pub ports: Option<Vec<u16>>,
    pub start_container: Option<String>,
    pub start_process: Option<String>,
    pub start_dev_mode: Option<String>,
    pub http_check: Option<String>,
    pub health_checks: Option<Vec<String>>,
    pub register_by_default: Option<bool>,
    pub requires_sudo: Option<bool>,
}

/// What is recorded of a process started for a service.
#[derive(Clone, Copy, Debug, PartialEq, Eq, Structural)]
pub struct Runfile {
    pub pid: u32,
    pub is_container: bool,
}

impl Runfile {
    /// The record of a process spawned directly, not in a container.
    pub fn spawned(pid: u32) -> (r: Runfile)
        ensures
            r.pid == pid,
            !r.is_container,
    {
        Runfile { pid, is_container: false }
    }
}

/// The registry's record of one service.
#[derive(Debug)]
pub struct ServiceRegistryEntryJson {
    pub aliases: Option<Vec<String>>,
    pub image_tag: Option<String>,
    pub repo_path: String,
}

/// A registry entry as values.
pub ghost struct EntryView {
    pub aliases: Option<Seq<Seq<char>>>,
    pub image_tag: Option<Seq<char>>,
    pub repo_path: Seq<char>,
}

pub open spec fn texts(v: Seq<String>) -> Seq<Seq<char>> {
    v.map_values(|s: String| s@)
}

pub open spec fn opt_texts(v: Option<Vec<String>>) -> Option<Seq<Seq<char>>> {
    match v {
        Some(v) => Some(texts(v@)),
        None => None,
    }
}

pub open spec fn opt_text(v: Option<String>) -> Option<Seq<char>> {
    match v {
        Some(s) => Some(s@),
        None => None,
    }
}

impl View for ServiceRegistryEntryJson {
    type V = EntryView;

    open spec fn view(&self) -> EntryView {
        EntryView {
            aliases: opt_texts(self.aliases),
            image_tag: opt_text(self.image_tag),
            repo_path: self.repo_path@,
        }
    }
}

impl From<Service> for ServiceRegistryEntryJson {
    fn from(svc: Service) -> (r: ServiceRegistryEntryJson) {
        ServiceRegistryEntryJson {
            aliases: Some(svc.aliases),
            image_tag: svc.image_tag,
            repo_path: svc.repo_path,
        }
    }
}

impl vstd::std_specs::convert::FromSpecImpl<Service> for ServiceRegistryEntryJson {
    open spec fn obeys_from_spec() -> bool {
        true
    }

    open spec fn from_spec(svc: Service) -> ServiceRegistryEntryJson {
        ServiceRegistryEntryJson {
            aliases: Some(svc.aliases),
            image_tag: svc.image_tag,
            repo_path: svc.repo_path,
        }
    }
}

/// The map that a list of entries describes; a later entry of a name wins.
pub open spec fn entries_view(es: Seq<(String, ServiceRegistryEntryJson)>) -> Map<Seq<char>, EntryView>
    decreases es.len(),
{
    if es.len() == 0 {
        Map::empty()
    } else {
        entries_view(es.drop_last()).insert(es.last().0@, es.last().1@)
    }
}

/// No name occurs twice.
pub open spec fn keys_unique(es: Seq<(String, ServiceRegistryEntryJson)>) -> bool {
    forall|i: int, j: int| 0 <= i < j < es.len() ==> (#[trigger] es[i]).0@ != (#[trigger] es[j]).0@
}

/// The position of the entry named `k`, if there is one.
pub open spec fn index_of(es: Seq<(String, ServiceRegistryEntryJson)>, k: Seq<char>) -> int
    decreases es.len(),
{
    if es.len() == 0 {
        -1
    } else if es.last().0@ == k {
        es.len() - 1
    } else {
        index_of(es.drop_last(), k)
    }
}

proof fn lemma_index_of(es: Seq<(String, ServiceRegistryEntryJson)>, k: Seq<char>)
    ensures
        -1 <= index_of(es, k) < es.len(),
        index_of(es, k) >= 0 ==> es[index_of(es, k)].0@ == k,
        index_of(es, k) >= 0 ==> entries_view(es).contains_key(k) && entries_view(es)[k]
            == es[index_of(es, k)].1@,
        index_of(es, k) < 0 ==> !entries_view(es).contains_key(k),
        index_of(es, k) < 0 ==> forall|i: int| 0 <= i < es.len() ==> (#[trigger] es[i]).0@ != k,
    decreases es.len(),
{
    if es.len() > 0 {
        let d = es.drop_last();
        lemma_index_of(d, k);
        if es.last().0@ != k && index_of(d, k) < 0 {
            assert forall|i: int| 0 <= i < es.len() implies (#[trigger] es[i]).0@ != k by {
                if i < es.len() - 1 {
                    assert(es[i] == d[i]);
                }
            }
        }
    }
}

proof fn lemma_unique_drop_last(es: Seq<(String, ServiceRegistryEntryJson)>)
    requires
        keys_unique(es),
        es.len() > 0,
    ensures
        keys_unique(es.drop_last()),
        index_of(es.drop_last(), es.last().0@) < 0,
{
    let d = es.drop_last();
    assert forall|i: int, j: int| 0 <= i < j < d.len() implies (#[trigger] d[i]).0@ != (#[trigger] d[j]).0@ by {
        assert(d[i] == es[i] && d[j] == es[j]);
    }
    lemma_index_of(d, es.last().0@);
    if index_of(d, es.last().0@) >= 0 {
        let i = index_of(d, es.last().0@);
        assert(es[i] == d[i]);
        assert(es[i].0@ == es[es.len() - 1].0@);
    }
}

proof fn lemma_update_view(es: Seq<(String, ServiceRegistryEntryJson)>, i: int, x: (String, ServiceRegistryEntryJson))
    requires
        keys_unique(es),
        0 <= i < es.len(),
        es[i].0@ == x.0@,
    ensures
        entries_view(es.update(i, x)) == entries_view(es).insert(x.0@, x.1@),
        keys_unique(es.update(i, x)),
    decreases es.len(),
{
    let u = es.update(i, x);
    let d = es.drop_last();
    lemma_unique_drop_last(es);
    assert forall|a: int, b: int| 0 <= a < b < u.len() implies (#[trigger] u[a]).0@ != (#[trigger] u[b]).0@ by {
        assert(es[a].0@ == u[a].0@ && es[b].0@ == u[b].0@);
    }
    if i == es.len() - 1 {
        assert(u.drop_last() == d);
        assert(entries_view(u) =~= entries_view(es).insert(x.0@, x.1@));
    } else {
        assert(u.drop_last() == d.update(i, x));
        lemma_update_view(d, i, x);
        lemma_index_of(d, es.last().0@);
        assert(d[i] == es[i]);
        assert(es.last().0@ != x.0@) by {
            assert(es[i].0@ != es[es.len() - 1].0@);
        }
        assert(u.last() == es.last());
        assert(entries_view(u) =~= entries_view(es).insert(x.0@, x.1@));
    }
}

proof fn lemma_remove_view(es: Seq<(String, ServiceRegistryEntryJson)>, i: int)
    requires
        keys_unique(es),
        0 <= i < es.len(),
    ensures
        entries_view(es.remove(i)) == entries_view(es).remove(es[i].0@),
        keys_unique(es.remove(i)),
    decreases es.len(),
{
    let r = es.remove(i);
    let d = es.drop_last();
    lemma_unique_drop_last(es);
    assert forall|a: int, b: int| 0 <= a < b < r.len() implies (#[trigger] r[a]).0@ != (#[trigger] r[b]).0@ by {
        let a2 = if a < i { a } else { a + 1 };
        let b2 = if b < i { b } else { b + 1 };
        assert(r[a] == es[a2] && r[b] == es[b2]);
    }
    if i == es.len() - 1 {
        assert(r == d);
        lemma_index_of(d, es[i].0@);
        assert(entries_view(r) =~= entries_view(es).remove(es[i].0@));
    } else {
        assert(r.drop_last() == d.remove(i));
        assert(r.last() == es.last());
        lemma_remove_view(d, i);
        assert(d[i] == es[i]);
        assert(es.last().0@ != es[i].0@) by {
            assert(es[i].0@ != es[es.len() - 1].0@);
        }
        assert(entries_view(r) =~= entries_view(es).remove(es[i].0@));
    }
}

/// The entries after adding `x`: it replaces the entry of the same name, or
/// comes last.
pub open spec fn insert_entry(es: Seq<(String, ServiceRegistryEntryJson)>, x: (String, ServiceRegistryEntryJson)) -> Seq<(String, ServiceRegistryEntryJson)> {
    let i = index_of(es, x.0@);
    if i >= 0 {
        es.update(i, x)
    } else {
        es.push(x)
    }
}

/// The entries of a registry loaded from `es`, added one after the other.
pub open spec fn load_spec(es: Seq<(String, ServiceRegistryEntryJson)>) -> Seq<(String, ServiceRegistryEntryJson)>
    decreases es.len(),
{
    if es.len() == 0 {
        Seq::empty()
    } else {
        insert_entry(load_spec(es.drop_last()), es.last())
    }
}

proof fn lemma_load_unique(es: Seq<(String, ServiceRegistryEntryJson)>)
    requires
        keys_unique(es),
    ensures
        load_spec(es) == es,
    decreases es.len(),
{
    if es.len() > 0 {
        lemma_unique_drop_last(es);
        lemma_load_unique(es.drop_last());
        assert(es.drop_last().push(es.last()) == es);
    }
}

proof fn lemma_push_unique(es: Seq<(String, ServiceRegistryEntryJson)>, x: (String, ServiceRegistryEntryJson))
    requires
        keys_unique(es),
        !entries_view(es).contains_key(x.0@),
    ensures
        keys_unique(es.push(x)),
        entries_view(es.push(x)) == entries_view(es).insert(x.0@, x.1@),
{
    let p = es.push(x);
    lemma_index_of(es, x.0@);
    assert forall|a: int, b: int| 0 <= a < b < p.len() implies (#[trigger] p[a]).0@ != (#[trigger] p[b]).0@ by {
        assert(p[a] == es[a]);
        if b < es.len() {
            assert(p[b] == es[b]);
        }
    }
    assert(p.drop_last() == es);
}

/// The registry of services: where each service's repository lies.
#[derive(Debug)]
pub struct ServiceRegistry {
    path: String,
    content: Vec<(String, ServiceRegistryEntryJson)>,
}

impl View for ServiceRegistry {
    type V = Map<Seq<char>, EntryView>;

    closed spec fn view(&self) -> Map<Seq<char>, EntryView> {
        entries_view(self.content@)
    }
}

impl ServiceRegistry {
    /// Each name has one entry.
    pub closed spec fn wf(&self) -> bool {
        keys_unique(self.content@)
    }

    /// The entries, in the order in which their names were first added.
    pub closed spec fn entry_seq(&self) -> Seq<(String, ServiceRegistryEntryJson)> {
        self.content@
    }

    /// Where the registry is kept.
    pub closed spec fn path_spec(&self) -> Seq<char> {
        self.path@
    }

    /// An empty registry kept at `path`.
    pub fn new(path: &str) -> (r: ServiceRegistry)
        ensures
            r.wf(),
            r@ == Map::<Seq<char>, EntryView>::empty(),
            r.entry_seq().len() == 0,
            r.path_spec() == path@,
    {
        ServiceRegistry { path: String::from_str(path), content: Vec::new() }
    }

    /// Where the registry is kept.
    pub fn path(&self) -> (r: &str)
        ensures
            r@ == self.path_spec(),
    {
        self.path.as_str()
    }

    /// The entries, each name once, in the order in which names were first added.
    pub fn entries(&self) -> (r: &Vec<(String, ServiceRegistryEntryJson)>)
        requires
            self.wf(),
        ensures
            r@ == self.entry_seq(),
            keys_unique(r@),
            entries_view(r@) == self@,
    {
        &self.content
    }

    fn position(&self, name: &str) -> (r: Option<usize>)
        requires
            self.wf(),
        ensures
            r matches Some(i) ==> i < self.content@.len() && i == index_of(self.content@, name@),
            r is None ==> index_of(self.content@, name@) < 0,
    {
        let n = self.content.len();
        let mut i = n;
        assert(self.content@.subrange(0, n as int) == self.content@);
        while i > 0
            invariant
                i <= n,
                n == self.content@.len(),
                index_of(self.content@, name@) == index_of(self.content@.subrange(0, i as int), name@),
            decreases i,
        {
            assert(self.content@.subrange(0, i as int).drop_last() == self.content@.subrange(0, i - 1));
            if same_text(self.content[i - 1].0.as_str(), name) {
                return Some(i - 1);
            }
            i = i - 1;
        }
        None
    }

    /// The entry of a service.
    pub fn entry(&self, name: &str) -> (r: Option<&ServiceRegistryEntryJson>)
        requires
            self.wf(),
        ensures
            r matches Some(e) ==> self@.contains_key(name@) && self@[name@] == e@,
            r is None ==> !self@.contains_key(name@),
    {
        proof {
            lemma_index_of(self.content@, name@);
        }
        match self.position(name) {
            Some(i) => Some(&self.content[i].1),
            None => None,
        }
    }

    /// Adds an entry, or replaces the entry of the same name.
    pub fn insert(&mut self, name: String, entry: ServiceRegistryEntryJson)
        requires
            old(self).wf(),
        ensures
            final(self).wf(),
            final(self)@ == old(self)@.insert(name@, entry@),
            final(self).path_spec() == old(self).path_spec(),
            final(self).entry_seq() == insert_entry(old(self).entry_seq(), (name, entry)),
    {
        proof {
            lemma_index_of(self.content@, name@);
        }
        let ghost x = (name, entry);
        match self.position(name.as_str()) {
            Some(i) => {
                proof {
                    lemma_update_view(self.content@, i as int, x);
                }
                self.content.set(i, (name, entry));
            },
            None => {
                proof {
                    lemma_push_unique(self.content@, x);
                }
                self.content.push((name, entry));
            },
        }
    }

    /// Removes the entry of a service; tells whether there was one.
    pub fn remove(&mut self, name: &str) -> (r: bool)
        requires
            old(self).wf(),
        ensures
            final(self).wf(),
            r == old(self)@.contains_key(name@),
            final(self)@ == old(self)@.remove(name@),
            final(self).path_spec() == old(self).path_spec(),
    {
        proof {
            lemma_index_of(self.content@, name@);
        }
        match self.position(name) {
            Some(i) => {
                proof {
                    lemma_remove_view(self.content@, i as int);
                }
                self.content.remove(i);
                true
            },
            None => {
                assert(self@.remove(name@) =~= self@);
                false
            },
        }
    }
}

impl ServiceRegistry {
    /// The registry kept at `path`, holding `entries` as read from it. Only a
    /// `.json` file is read.
    pub fn from(path: &str, entries: Vec<(String, ServiceRegistryEntryJson)>) -> (r: Result<ServiceRegistry, DmgrErr>)
        ensures
            r is Ok <==> has_suffix(path@, ".json"@),
            r matches Err(e) ==> e.kind == ErrorKind::RegistryIOError,
            r matches Ok(reg) ==> {
                &&& reg.wf()
                &&& reg@ == entries_view(entries@)
                &&& reg.path_spec() == path@
                &&& reg.entry_seq() == load_spec(entries@)
            },
    {
        if !ends_with(path, ".json") {
            return Err(DmgrErr::about(ErrorKind::RegistryIOError, "could not read ", path));
        }
        let mut reg = ServiceRegistry::new(path);
        let mut rest = entries;
        let ghost all = entries@;
        let ghost mut k: int = 0;
        while rest.len() > 0
            invariant
                0 <= k <= all.len(),
                rest@ == all.subrange(k, all.len() as int),
                reg.wf(),
                reg@ == entries_view(all.subrange(0, k)),
                reg.path_spec() == path@,
                reg.entry_seq() == load_spec(all.subrange(0, k)),
            decreases rest@.len(),
        {
            let (name, entry) = rest.remove(0);
            proof {
                assert(all[k] == (name, entry));
                assert(all.subrange(0, k + 1).drop_last() == all.subrange(0, k));
                assert(all.subrange(0, k + 1).last() == (name, entry));
            }
            reg.insert(name, entry);
            proof {
                k = k + 1;
                assert(rest@ == all.subrange(k, all.len() as int));
            }
        }
        assert(all.subrange(0, all.len() as int) == all);
        Ok(reg)
    }

    /// The registry kept under the base directory `base`, holding `entries`
    /// as read from it.
    pub fn get(base: &str, entries: Vec<(String, ServiceRegistryEntryJson)>) -> (r: Result<ServiceRegistry, DmgrErr>)
        ensures
            r matches Ok(reg) ==> reg.wf() && reg@ == entries_view(entries@) && reg.path_spec()
                == registry_path_spec(base@),
            r is Err <==> !has_suffix(registry_path_spec(base@), ".json"@),
    {
        let path = registry_path(base);
        Self::from(path.as_str(), entries)
    }

    /// The path of the descriptor of a registered service.
    pub fn get_service(&self, name: &str) -> (r: Result<String, DmgrErr>)
        requires
            self.wf(),
        ensures
            r is Err <==> !self@.contains_key(name@),
            r matches Err(e) ==> e.kind == ErrorKind::UnknownService,
            r matches Ok(p) ==> p@ == descriptor_path_spec(self@[name@].repo_path, name@),
    {
        match self.entry(name) {
            Some(e) => Ok(descriptor_path(e.repo_path.as_str(), name)),
            None => Err(DmgrErr::about(ErrorKind::UnknownService, "unable to find service ", name)),
        }
    }

    /// Registers the service whose descriptor lies at the canonical path `path`
    /// and holds `cfg`: under the file's stem, with the directory two levels
    /// above as its repository.
    pub fn add_cfg(self, path: &str, cfg: ServiceConfigContent) -> (r: Result<ServiceRegistry, DmgrErr>)
        requires
            self.wf(),
        ensures
            r is Err <==> file_stem_spec(path@) is None || grandparent_spec(path@) is None,
            r matches Err(e) ==> e.kind == ErrorKind::ConfigNotFound,
            r matches Ok(reg) ==> {
                &&& reg.wf()
                &&& reg.path_spec() == self.path_spec()
                &&& reg@ == self@.insert(
                    file_stem_spec(path@)->0,
                    EntryView {
                        aliases: opt_texts(cfg.aliases),
                        image_tag: None,
                        repo_path: grandparent_spec(path@)->0,
                    },
                )
            },
    {
        let name = match file_stem(path) {
            Some(n) => n,
            None => {
                return Err(DmgrErr::about(ErrorKind::ConfigNotFound, "no service name in ", path));
            },
        };
        let repo_path = match repo_path_for(path) {
            Some(p) => p,
            None => {
                return Err(DmgrErr::about(ErrorKind::ConfigNotFound, "no repository above ", path));
            },
        };
        let entry = ServiceRegistryEntryJson { aliases: cfg.aliases, image_tag: None, repo_path };
        let mut reg = self;
        reg.insert(name, entry);
        Ok(reg)
    }

    /// Registers a service by its descriptor file, which holds `cfg`.
    pub fn add_svc(self, svc: &Service, cfg: ServiceConfigContent) -> (r: Result<ServiceRegistry, DmgrErr>)
        requires
            self.wf(),
        ensures
            r is Err <==> file_stem_spec(svc.config_file@) is None || grandparent_spec(
                svc.config_file@,
            ) is None,
            r matches Err(e) ==> e.kind == ErrorKind::ConfigNotFound,
            r matches Ok(reg) ==> {
                &&& reg.wf()
                &&& reg.path_spec() == self.path_spec()
                &&& reg@ == self@.insert(
                    file_stem_spec(svc.config_file@)->0,
                    EntryView {
                        aliases: opt_texts(cfg.aliases),
                        image_tag: None,
                        repo_path: grandparent_spec(svc.config_file@)->0,
                    },
                )
            },
    {
        self.add_cfg(svc.config_file.as_str(), cfg)
    }
}

/// The entry that registering the descriptor at `path`, holding `cfg`, makes.
pub open spec fn entry_for(path: Seq<char>, cfg: ServiceConfigContent) -> EntryView {
    EntryView { aliases: opt_texts(cfg.aliases), image_tag: None, repo_path: grandparent_spec(path)->0 }
}

/// Whether a descriptor path names a service and lies two levels below its repository.
pub open spec fn registrable(path: Seq<char>) -> bool {
    file_stem_spec(path) is Some && grandparent_spec(path) is Some
}

/// The registry `m` after registering each descriptor of `ds` in turn.
pub open spec fn register_all_spec(m: Map<Seq<char>, EntryView>, ds: Seq<(String, ServiceConfigContent)>) -> Map<Seq<char>, EntryView>
    decreases ds.len(),
{
    if ds.len() == 0 {
        m
    } else {
        register_all_spec(m, ds.drop_last()).insert(
            file_stem_spec(ds.last().0@)->0,
            entry_for(ds.last().0@, ds.last().1),
        )
    }
}

/// The registry `m` after registering, in turn, each service of `ss` that is
/// registered by default.
pub open spec fn register_default_spec(m: Map<Seq<char>, EntryView>, ss: Seq<(Service, ServiceConfigContent)>) -> Map<Seq<char>, EntryView>
    decreases ss.len(),
{
    if ss.len() == 0 {
        m
    } else if ss.last().0.register_by_default {
        register_default_spec(m, ss.drop_last()).insert(
            file_stem_spec(ss.last().0.config_file@)->0,
            entry_for(ss.last().0.config_file@, ss.last().1),
        )
    } else {
        register_default_spec(m, ss.drop_last())
    }
}

impl ServiceRegistry {
    /// Registers every descriptor of `descriptors`, given by its canonical path
    /// and its content, in turn; fails on the first that cannot be registered.
    pub fn register_all(self, descriptors: Vec<(String, ServiceConfigContent)>) -> (r: Result<ServiceRegistry, DmgrErr>)
        requires
            self.wf(),
        ensures
            r is Ok <==> forall|i: int| 0 <= i < descriptors@.len() ==> registrable(#[trigger] descriptors@[i].0@),
            r matches Err(e) ==> e.kind == ErrorKind::ConfigNotFound,
            r matches Ok(reg) ==> reg.wf() && reg.path_spec() == self.path_spec() && reg@
                == register_all_spec(self@, descriptors@),
    {
        let ghost all = descriptors@;
        let ghost start = self@;
        let mut reg = self;
        let mut rest = descriptors;
        let ghost mut k: int = 0;
        while rest.len() > 0
            invariant
                0 <= k <= all.len(),
                all == descriptors@,
                rest@ == all.subrange(k, all.len() as int),
                reg.wf(),
                reg.path_spec() == self.path_spec(),
                reg@ == register_all_spec(start, all.subrange(0, k)),
                forall|i: int| 0 <= i < k ==> registrable(#[trigger] all[i].0@),
            decreases rest@.len(),
        {
            let (path, cfg) = rest.remove(0);
            proof {
                assert(all[k] == (path, cfg));
                assert(all.subrange(0, k + 1).drop_last() == all.subrange(0, k));
            }
            reg = match reg.add_cfg(path.as_str(), cfg) {
                Ok(r) => r,
                Err(e) => {
                    assert(!registrable(all[k].0@));
                    return Err(e);
                },
            };
            proof {
                k = k + 1;
                assert(rest@ == all.subrange(k, all.len() as int));
            }
        }
        assert(all.subrange(0, all.len() as int) == all);
        Ok(reg)
    }

    /// Registers, in turn, each service of `services` that is registered by
    /// default, with the content of its descriptor; fails on the first that
    /// cannot be registered.
    pub fn register_default(self, services: Vec<(Service, ServiceConfigContent)>) -> (r: Result<ServiceRegistry, DmgrErr>)
        requires
            self.wf(),
        ensures
            r is Ok <==> forall|i: int|
                0 <= i < services@.len() && (#[trigger] services@[i]).0.register_by_default ==> registrable(
                    services@[i].0.config_file@,
                ),
            r matches Err(e) ==> e.kind == ErrorKind::ConfigNotFound,
            r matches Ok(reg) ==> reg.wf() && reg.path_spec() == self.path_spec() && reg@
                == register_default_spec(self@, services@),
    {
        let ghost all = services@;
        let ghost start = self@;
        let mut reg = self;
        let mut rest = services;
        let ghost mut k: int = 0;
        while rest.len() > 0
            invariant
                0 <= k <= all.len(),
                all == services@,
                rest@ == all.subrange(k, all.len() as int),
                reg.wf(),
                reg.path_spec() == self.path_spec(),
                reg@ == register_default_spec(start, all.subrange(0, k)),
                forall|i: int|
                    0 <= i < k && (#[trigger] all[i]).0.register_by_default ==> registrable(
                        all[i].0.config_file@,
                    ),
            decreases rest@.len(),
        {
            let (svc, cfg) = rest.remove(0);
            proof {
                assert(all[k] == (svc, cfg));
                assert(all.subrange(0, k + 1).drop_last() == all.subrange(0, k));
            }
            if svc.register_by_default {
                reg = match reg.add_svc(&svc, cfg) {
                    Ok(r) => r,
                    Err(e) => {
                        assert(all[k].0.register_by_default && !registrable(all[k].0.config_file@));
                        return Err(e);
                    },
                };
            }
            proof {
                k = k + 1;
                assert(rest@ == all.subrange(k, all.len() as int));
            }
        }
        assert(all.subrange(0, all.len() as int) == all);
        Ok(reg)
    }
}

/// Saving a registry and loading what was saved gives the same registry.
pub proof fn lemma_load_after_save(reg: ServiceRegistry)
    requires
        reg.wf(),
    ensures
        load_spec(reg.entry_seq()) == reg.entry_seq(),
        entries_view(load_spec(reg.entry_seq())) == reg@,
{
    lemma_load_unique(reg.entry_seq());
}

/// Loading a registry file, whose names are distinct, and saving what was
/// loaded writes the same entries in the same order.
pub proof fn lemma_save_after_load(entries: Seq<(String, ServiceRegistryEntryJson)>)
    requires
        keys_unique(entries),
    ensures
        load_spec(entries) == entries,
{
    lemma_load_unique(entries);
}

} // verus!
