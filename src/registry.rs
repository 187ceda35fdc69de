use std::collections::HashMap;
use vstd::prelude::*;

verus! {

broadcast use vstd::std_specs::hash::group_hash_axioms;

/// The abstract state of a host registry.
pub ghost struct RegistryView<H> {
    /// The host of the instantiation in progress, if any.
    pub staging: Option<H>,
    /// The host of each live instance, by the id kept in its descriptor's reserved slot.
    pub hosts: Map<u64, H>,
    /// The id the next instance will get.
    pub next_id: u64,
}

impl<H> RegistryView<H> {
    /// Ids are never zero (zero marks an empty reserved slot) and are handed out in order.
    pub open spec fn wf(self) -> bool {
        &&& 1 <= self.next_id
        &&& forall|id: u64| #[trigger] self.hosts.contains_key(id) ==> 1 <= id < self.next_id
    }

    /// An instantiation is in progress: its host sits in the staging slot.
    pub open spec fn bootstrapping(self) -> bool {
        self.staging is Some
    }

    /// Another instance can still get an id.
    pub open spec fn has_room(self) -> bool {
        self.next_id < u64::MAX
    }

    /// The host a callback reaches, given the reserved slot of its descriptor (`None` where
    /// the descriptor pointer is null). A populated slot is authoritative; otherwise the
    /// callback belongs to the instantiation in progress.
    pub open spec fn resolve(self, slot: Option<u64>) -> Option<H> {
        match slot {
            Some(id) if id != 0 => if self.hosts.contains_key(id) {
                Some(self.hosts[id])
            } else {
                None
            },
            _ => self.staging,
        }
    }

    /// The state once `host` is placed in the staging slot.
    pub open spec fn staged(self, host: H) -> Self {
        RegistryView { staging: Some(host), ..self }
    }

    /// The state once the entry point has returned: the staged host is attached under the
    /// next id when a descriptor came back, and the staging slot is emptied either way.
    pub open spec fn finished(self, attach: bool) -> Self {
        if attach {
            RegistryView {
                staging: None,
                hosts: self.hosts.insert(self.next_id, self.staging.unwrap()),
                next_id: (self.next_id + 1) as u64,
            }
        } else {
            RegistryView { staging: None, ..self }
        }
    }

    /// The state once the instance with this id is gone.
    pub open spec fn released(self, id: u64) -> Self {
        RegistryView { hosts: self.hosts.remove(id), ..self }
    }
}

/// Where callbacks find their host: the staging slot while a plugin's entry point runs,
/// and afterwards a table keyed by the id stored in the descriptor's reserved slot.
///
/// Only one instantiation may be in progress at a time; `begin_bootstrap` requires it.
pub struct HostRegistry<H> {
    staging: Option<H>,
    hosts: HashMap<u64, H>,
    next_id: u64,
}

impl<H> View for HostRegistry<H> {
    type V = RegistryView<H>;

    closed spec fn view(&self) -> RegistryView<H> {
        RegistryView { staging: self.staging, hosts: self.hosts@, next_id: self.next_id }
    }
}

impl<H> HostRegistry<H> {
    /// An empty registry.
    pub fn new() -> (r: HostRegistry<H>)
        ensures
            r@.wf(),
            r@.staging is None,
            r@.hosts == Map::<u64, H>::empty(),
            r@.next_id == 1,
    {
        HostRegistry { staging: None, hosts: HashMap::new(), next_id: 1 }
    }

    /// Whether an instantiation is in progress.
    pub fn is_bootstrapping(&self) -> (r: bool)
        ensures
            r == self@.bootstrapping(),
    {
        self.staging.is_some()
    }

    /// Whether another instance can still get an id.
    pub fn has_room(&self) -> (r: bool)
        ensures
            r == self@.has_room(),
    {
        self.next_id < u64::MAX
    }

    /// Places the host of a starting instantiation in the staging slot.
    pub fn begin_bootstrap(&mut self, host: H)
        requires
            old(self)@.wf(),
            !old(self)@.bootstrapping(),
        ensures
            final(self)@ == old(self)@.staged(host),
            final(self)@.wf(),
    {
        self.staging = Some(host);
    }

    /// Ends the instantiation in progress. Where the entry point gave a descriptor, the
    /// staged host is attached under a fresh id, which is returned for the descriptor's
    /// reserved slot.
    pub fn finish_bootstrap(&mut self, attach: bool) -> (r: Option<u64>)
        requires
            old(self)@.wf(),
            old(self)@.bootstrapping(),
            old(self)@.has_room(),
        ensures
            final(self)@ == old(self)@.finished(attach),
            final(self)@.wf(),
            r == (if attach { Some(old(self)@.next_id) } else { None::<u64> }),
    {
        let staged = self.staging.take();
        match staged {
            Some(host) => {
                if attach {
                    let id = self.next_id;
                    self.hosts.insert(id, host);
                    self.next_id = id + 1;
                    assert(self@.hosts =~= old(self)@.hosts.insert(id, old(self)@.staging.unwrap()));
                    Some(id)
                } else {
                    None
                }
            },
            None => None,
        }
    }

    /// The host a callback reaches, given its descriptor's reserved slot (`None` where the
    /// descriptor pointer is null).
    pub fn resolve(&self, slot: Option<u64>) -> (r: Option<&H>)
        ensures
            match r {
                Some(h) => self@.resolve(slot) == Some(*h),
                None => self@.resolve(slot) is None,
            },
    {
        match slot {
            Some(id) if id != 0 => self.hosts.get(&id),
            _ => self.staging.as_ref(),
        }
    }

    /// Forgets the host of an instance that has shut down.
    pub fn release(&mut self, id: u64) -> (r: Option<H>)
        requires
            old(self)@.wf(),
        ensures
            final(self)@ == old(self)@.released(id),
            final(self)@.wf(),
            r == (if old(self)@.hosts.contains_key(id) { Some(old(self)@.hosts[id]) } else { None::<H> }),
    {
        let r = self.hosts.remove(&id);
        assert(self@.hosts =~= old(self)@.hosts.remove(id));
        r
    }
}

/// A callback made while the entry point runs (null descriptor, or reserved slot still
/// empty) reaches the host staged just before; once the instance is attached, a callback
/// carrying its id reaches that host, and keeps doing so when a later instantiation stages
/// another host.
pub proof fn lemma_callback_resolution<H>(reg: RegistryView<H>, host: H, later: H)
    requires
        reg.wf(),
        !reg.bootstrapping(),
        reg.has_room(),
    ensures
        reg.staged(host).resolve(None) == Some(host),
        reg.staged(host).resolve(Some(0)) == Some(host),
        reg.staged(host).finished(true).resolve(Some(reg.next_id)) == Some(host),
        reg.staged(host).finished(true).staged(later).resolve(Some(reg.next_id)) == Some(host),
        reg.staged(host).finished(true).wf(),
{
}

} // verus!
