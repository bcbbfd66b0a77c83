use std::collections::HashSet;

use vstd::prelude::*;

use crate::error::Errno;
use crate::fs::events::IoEvents;

verus! {

broadcast use vstd::std_specs::hash::group_hash_axioms;

/// A file that lives on the host OS.
///
/// Each host file has one fixed host fd; `host_fd_num` names its number.
pub trait HostFile {
    /// The number of the host fd of this file.
    spec fn host_fd_num(&self) -> u32;

    /// Return the host fd.
    ///
    /// Note that a `HostFd` is unique among the live `HostFd`s made from the
    /// same `HostFdRegistry`, so host files whose fds come from one registry
    /// have different host fds.
    fn host_fd(&self) -> (r: &HostFd)
        ensures
            r@ == self.host_fd_num(),
    ;

    /// Receive events from the host.
    ///
    /// After calling this method, the `poll` method of the file will
    /// return the latest events on the `HostFile`.
    fn recv_host_events(&self, events: &IoEvents);
}

/// A unique fd from the host OS.
///
/// A `HostFd` is made only by registering its number in a `HostFdRegistry`,
/// and its number leaves the registry when it is released, so that no two live
/// `HostFd`s of one registry hold the same number. The type has no destructor:
/// its owner gives the number back with `release` when it is done with it.
#[derive(Debug, PartialEq, Eq, Structural, Hash)]
pub struct HostFd(u32);

impl View for HostFd {
    type V = u32;

    closed spec fn view(&self) -> u32 {
        self.0
    }
}

impl HostFd {
    /// Registers `host_fd` in `registry` and wraps it.
    pub fn new(host_fd: u32, registry: &mut HostFdRegistry) -> (r: HostFd)
        requires
            !old(registry)@.contains(host_fd),
        ensures
            r@ == host_fd,
            final(registry)@ == old(registry)@.insert(host_fd),
    {
        let _ = registry.register(host_fd);
        HostFd(host_fd)
    }

    pub fn to_u32(&self) -> (r: u32)
        ensures
            r == self@,
    {
        self.0
    }

    /// Takes the number of this fd out of `registry`, where `new` put it.
    pub fn release(self, registry: &mut HostFdRegistry)
        requires
            old(registry)@.contains(self@),
        ensures
            final(registry)@ == old(registry)@.remove(self@),
    {
        let _ = registry.unregister(self.to_u32());
    }
}

/// A registery for host fds to ensure that they are unique.
#[derive(Debug)]
pub struct HostFdRegistry {
    set: HashSet<u32>,
}

impl View for HostFdRegistry {
    type V = Set<u32>;

    closed spec fn view(&self) -> Set<u32> {
        self.set@
    }
}

impl HostFdRegistry {
    pub fn new() -> (r: HostFdRegistry)
        ensures
            r@ == Set::<u32>::empty(),
    {
        HostFdRegistry { set: HashSet::new() }
    }

    /// Whether `host_fd` is registered.
    pub fn contains(&self, host_fd: u32) -> (r: bool)
        ensures
            r == self@.contains(host_fd),
    {
        self.set.contains(&host_fd)
    }

    /// Registers `host_fd`; fails with `EEXIST`, and changes nothing, when it is
    /// registered already.
    pub fn register(&mut self, host_fd: u32) -> (r: Result<(), Errno>)
        ensures
            r is Ok <==> !old(self)@.contains(host_fd),
            r is Err ==> r == Err::<(), Errno>(Errno::EEXIST),
            final(self)@ == old(self)@.insert(host_fd),
    {
        let inserted = self.set.insert(host_fd);
        if !inserted {
            return Err(Errno::EEXIST);
        }
        Ok(())
    }

    /// Unregisters `host_fd`; fails with `ENOENT`, and changes nothing, when it is
    /// not registered.
    pub fn unregister(&mut self, host_fd: u32) -> (r: Result<(), Errno>)
        ensures
            r is Ok <==> old(self)@.contains(host_fd),
            r is Err ==> r == Err::<(), Errno>(Errno::ENOENT),
            final(self)@ == old(self)@.remove(host_fd),
    {
        let existed = self.set.remove(&host_fd);
        if !existed {
            return Err(Errno::ENOENT);
        }
        Ok(())
    }
}

/// Registering a number that is not registered and then unregistering it gives
/// the registry back as it was.
pub proof fn lemma_register_unregister_roundtrip(registered: Set<u32>, host_fd: u32)
    requires
        !registered.contains(host_fd),
    ensures
        registered.insert(host_fd).remove(host_fd) == registered,
{
    assert(registered.insert(host_fd).remove(host_fd) =~= registered);
}

/// Unregistering a registered number and registering it again gives the registry
/// back as it was.
pub proof fn lemma_unregister_register_roundtrip(registered: Set<u32>, host_fd: u32)
    requires
        registered.contains(host_fd),
    ensures
        registered.remove(host_fd).insert(host_fd) == registered,
{
    assert(registered.remove(host_fd).insert(host_fd) =~= registered);
}

/// Uniqueness: a number that can be registered now (the `requires` of
/// `HostFd::new`) differs from the number of every live `HostFd`, which is in the
/// registry; and once registered, the number cannot be registered again until it
/// is released.
pub proof fn lemma_host_fds_unique(registered: Set<u32>, live: u32, fresh: u32)
    requires
        registered.contains(live),
        !registered.contains(fresh),
    ensures
        live != fresh,
        registered.insert(fresh).contains(fresh),
        registered.insert(fresh).contains(live),
{
}

} // verus!
