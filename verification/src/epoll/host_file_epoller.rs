use std::collections::HashMap;

use vstd::prelude::*;

use super::{attr_to_c, CEpollEvent, EpollAttr, EpollAttrView, EpollCtlCmd};
use crate::error::Errno;
use crate::fs::events;
use crate::fs::{HostFd, HostFile, IoEvents};

verus! {

broadcast use vstd::std_specs::hash::group_hash_axioms;

/// An `epoll_ctl` call for the host: the epoll fd, the command, the target fd and,
/// except for a deletion, the event to register.
#[derive(Copy, Clone, Debug, PartialEq, Eq, Structural)]
pub struct EpollCtlRequest {
    pub epfd: i32,
    pub cmd: EpollCtlCmd,
    pub fd: i32,
    pub event: Option<CEpollEvent>,
}

/// The `epoll_ctl` call that registers `attr` (if any) for the host file `host_fd`
/// with the epoll instance `epfd`: the user data of the event is the host fd.
pub open spec fn ctl_request(
    epfd: u32,
    cmd: EpollCtlCmd,
    host_fd: u32,
    attr: Option<EpollAttrView>,
) -> EpollCtlRequest {
    EpollCtlRequest {
        epfd: epfd as i32,
        cmd,
        fd: host_fd as i32,
        event: match attr {
            Some(a) => Some(CEpollEvent { events: attr_to_c(a).events, u64: host_fd as u64 }),
            None => None,
        },
    }
}

/// What adding `host_fd` asks of the host: nothing when it was added already.
pub open spec fn add_outcome<F>(
    files: Map<u32, F>,
    epfd: u32,
    host_fd: u32,
    attr: EpollAttrView,
) -> Option<EpollCtlRequest> {
    if files.contains_key(host_fd) {
        None
    } else {
        Some(ctl_request(epfd, EpollCtlCmd::Add, host_fd, Some(attr)))
    }
}

/// What modifying `host_fd` asks of the host, or `ENOENT` when it was not added.
pub open spec fn mod_outcome<F>(
    files: Map<u32, F>,
    epfd: u32,
    host_fd: u32,
    attr: EpollAttrView,
) -> Result<EpollCtlRequest, Errno> {
    if files.contains_key(host_fd) {
        Ok(ctl_request(epfd, EpollCtlCmd::Mod, host_fd, Some(attr)))
    } else {
        Err(Errno::ENOENT)
    }
}

/// What deleting `host_fd` asks of the host, or `ENOENT` when it was not added.
pub open spec fn del_outcome<F>(files: Map<u32, F>, epfd: u32, host_fd: u32) -> Result<
    EpollCtlRequest,
    Errno,
> {
    if files.contains_key(host_fd) {
        Ok(ctl_request(epfd, EpollCtlCmd::Del, host_fd, None))
    } else {
        Err(Errno::ENOENT)
    }
}

/// The events that `poll` reports: `IN` when the host said the epoller is ready.
pub open spec fn poll_events(is_ready: bool) -> u32 {
    if is_ready {
        events::IN
    } else {
        0
    }
}

/// Whether the epoller is ready after the host reported `events`.
pub open spec fn ready_after(events: u32) -> bool {
    events & events::IN == events::IN
}

/// The `(host fd, events)` pairs that the host events `raw` deliver to the host
/// files `fds`, in order: an event whose user data names no such file is skipped.
pub open spec fn host_event_deliveries(raw: Seq<CEpollEvent>, fds: Set<u32>) -> Seq<(u32, u32)>
    decreases raw.len(),
{
    if raw.len() == 0 {
        Seq::empty()
    } else {
        let prev = host_event_deliveries(raw.drop_last(), fds);
        let host_fd = raw.last().u64 as u32;
        if fds.contains(host_fd) {
            prev.push((host_fd, raw.last().events & events::ALL))
        } else {
            prev
        }
    }
}

/// Whether the user data of a host event names one of the host files `fds`.
pub open spec fn names_added_fd(fds: Set<u32>) -> spec_fn(CEpollEvent) -> bool {
    |e: CEpollEvent| fds.contains(e.u64 as u32)
}

/// The view of a list of deliveries: the events as bit masks.
pub open spec fn deliveries_view(d: Seq<(u32, IoEvents)>) -> Seq<(u32, u32)> {
    d.map_values(|p: (u32, IoEvents)| (p.0, p.1@))
}

/// An epoll-based helper type to update the states of a set of host files.
#[derive(Debug)]
pub struct HostFileEpoller<F> {
    host_files: HashMap<u32, F>,
    host_fd: HostFd,
    is_ready: bool,
}

impl<F> HostFileEpoller<F> {
    /// The host files that were added, by host fd.
    pub closed spec fn host_files(&self) -> Map<u32, F> {
        self.host_files@
    }

    /// The host fd of the epoll instance.
    pub closed spec fn epfd(&self) -> u32 {
        self.host_fd@
    }

    /// Whether the host last reported that the epoll instance is readable.
    pub closed spec fn is_ready(&self) -> bool {
        self.is_ready
    }

    /// An epoller on the host epoll instance `host_fd`, with no host file.
    pub fn new(host_fd: HostFd) -> (r: Self)
        ensures
            r.host_files() == Map::<u32, F>::empty(),
            r.epfd() == host_fd@,
            !r.is_ready(),
    {
        HostFileEpoller { host_files: HashMap::new(), host_fd, is_ready: false }
    }

    pub fn host_fd(&self) -> (r: &HostFd)
        ensures
            r@ == self.epfd(),
    {
        &self.host_fd
    }

    pub fn poll(&self) -> (r: IoEvents)
        ensures
            r@ == poll_events(self.is_ready()),
    {
        if self.is_ready {
            let r = IoEvents::from_bits_truncate(events::IN);
            assert(0x1u32 & 0x201fu32 == 0x1u32) by (bit_vector);
            r
        } else {
            IoEvents::empty()
        }
    }

    pub fn recv_host_events(&mut self, events: &IoEvents)
        ensures
            final(self).is_ready() == ready_after(events@),
            final(self).host_files() == old(self).host_files(),
            final(self).epfd() == old(self).epfd(),
    {
        let is_ready = events.contains(IoEvents::from_bits_truncate(events::IN));
        assert(0x1u32 & 0x201fu32 == 0x1u32) by (bit_vector);
        self.is_ready = is_ready;
    }

    /// The host file added under `host_fd`, if any.
    pub fn host_file(&self, host_fd: u32) -> (r: Option<&F>)
        ensures
            r is Some <==> self.host_files().contains_key(host_fd),
            r matches Some(f) ==> *f == self.host_files()[host_fd],
    {
        self.host_files.get(&host_fd)
    }

    /// Adds the host file `host_file` under its host fd `host_fd`. When a file was
    /// added under that fd already, it is replaced and the host is asked nothing;
    /// else the `epoll_ctl` call that adds it is returned.
    pub fn add_fd(&mut self, host_fd: u32, host_file: F, ep_attr: &EpollAttr) -> (r: Option<
        EpollCtlRequest,
    >)
        ensures
            final(self).host_files() == old(self).host_files().insert(host_fd, host_file),
            r == add_outcome(old(self).host_files(), old(self).epfd(), host_fd, ep_attr@),
            r is Some <==> !old(self).host_files().contains_key(host_fd),
            r matches Some(q) ==> {
                &&& q.cmd == EpollCtlCmd::Add
                &&& q.epfd == old(self).epfd() as i32
                &&& q.fd == host_fd as i32
                &&& q.event == Some(
                    CEpollEvent { events: ep_attr@.event.mask | ep_attr@.flags, u64: host_fd as u64 },
                )
            },
            final(self).epfd() == old(self).epfd(),
            final(self).is_ready() == old(self).is_ready(),
    {
        let already_added = self.host_files.insert(host_fd, host_file).is_some();
        if already_added {
            // The same host file may be reachable through two fds of the library OS;
            // it is registered with the host once.
            return None;
        }
        Some(self.do_epoll_ctl(EpollCtlCmd::Add, host_fd, Some(ep_attr)))
    }

    /// The `epoll_ctl` call that changes the attributes of the host file `host_fd`,
    /// or `ENOENT` when it was not added.
    pub fn mod_fd(&self, host_fd: u32, ep_attr: &EpollAttr) -> (r: Result<EpollCtlRequest, Errno>)
        ensures
            r == mod_outcome(self.host_files(), self.epfd(), host_fd, ep_attr@),
            r is Ok <==> self.host_files().contains_key(host_fd),
            r is Err ==> r == Err::<EpollCtlRequest, Errno>(Errno::ENOENT),
            r matches Ok(q) ==> {
                &&& q.cmd == EpollCtlCmd::Mod
                &&& q.epfd == self.epfd() as i32
                &&& q.fd == host_fd as i32
                &&& q.event == Some(
                    CEpollEvent { events: ep_attr@.event.mask | ep_attr@.flags, u64: host_fd as u64 },
                )
            },
    {
        let not_added = !self.host_files.contains_key(&host_fd);
        if not_added {
            return Err(Errno::ENOENT);
        }
        Ok(self.do_epoll_ctl(EpollCtlCmd::Mod, host_fd, Some(ep_attr)))
    }

    /// Removes the host file `host_fd` and returns the `epoll_ctl` call that
    /// deletes it, or `ENOENT` when it was not added.
    pub fn del_fd(&mut self, host_fd: u32) -> (r: Result<EpollCtlRequest, Errno>)
        ensures
            final(self).host_files() == old(self).host_files().remove(host_fd),
            r == del_outcome(old(self).host_files(), old(self).epfd(), host_fd),
            r is Ok <==> old(self).host_files().contains_key(host_fd),
            r is Err ==> r == Err::<EpollCtlRequest, Errno>(Errno::ENOENT),
            r matches Ok(q) ==> {
                &&& q.cmd == EpollCtlCmd::Del
                &&& q.epfd == old(self).epfd() as i32
                &&& q.fd == host_fd as i32
                &&& q.event is None
            },
            final(self).epfd() == old(self).epfd(),
            final(self).is_ready() == old(self).is_ready(),
    {
        let not_added = self.host_files.remove(&host_fd).is_none();
        if not_added {
            return Err(Errno::ENOENT);
        }
        Ok(self.do_epoll_ctl(EpollCtlCmd::Del, host_fd, None))
    }

    fn do_epoll_ctl(&self, cmd: EpollCtlCmd, host_fd: u32, ep_attr: Option<&EpollAttr>) -> (r:
        EpollCtlRequest)
        ensures
            r == ctl_request(
                self.epfd(),
                cmd,
                host_fd,
                match ep_attr {
                    Some(a) => Some(a@),
                    None => None,
                },
            ),
            r.cmd == cmd,
            r.epfd == self.epfd() as i32,
            r.fd == host_fd as i32,
            r.event is Some <==> ep_attr is Some,
            ep_attr matches Some(a) ==> r.event == Some(
                CEpollEvent { events: a@.event.mask | a@.flags, u64: host_fd as u64 },
            ),
    {
        let c_event = match ep_attr {
            Some(ep_attr) => {
                let mut c_event = ep_attr.to_c();
                c_event.u64 = host_fd as u64;
                Some(c_event)
            },
            None => None,
        };
        EpollCtlRequest {
            epfd: self.host_fd.to_u32() as i32,
            cmd,
            fd: host_fd as i32,
            event: c_event,
        }
    }

    /// The `(host fd, events)` pairs that the host events `raw_events` deliver to
    /// the added host files, in order.
    pub fn host_events_to_deliver(&self, raw_events: &[CEpollEvent]) -> (r: Vec<(u32, IoEvents)>)
        ensures
            deliveries_view(r@) == host_event_deliveries(raw_events@, self.host_files().dom()),
            deliveries_view(r@) == raw_events@.filter(names_added_fd(self.host_files().dom())).map_values(
                |e: CEpollEvent| (e.u64 as u32, e.events & events::ALL),
            ),
    {
        let mut out: Vec<(u32, IoEvents)> = Vec::new();
        let mut i: usize = 0;
        while i < raw_events.len()
            invariant
                i <= raw_events@.len(),
                deliveries_view(out@) == host_event_deliveries(
                    raw_events@.take(i as int),
                    self.host_files().dom(),
                ),
            decreases raw_events@.len() - i,
        {
            let raw_event = raw_events[i];
            let io_events = IoEvents::from_bits_truncate(raw_event.events);
            let host_fd = raw_event.u64 as u32;
            let ghost prev = out@;
            assert(raw_events@.take(i + 1).drop_last() =~= raw_events@.take(i as int));
            if self.host_files.contains_key(&host_fd) {
                out.push((host_fd, io_events));
                assert(deliveries_view(out@) =~= deliveries_view(prev).push((host_fd, io_events@)));
            }
            i = i + 1;
        }
        assert(raw_events@.take(i as int) =~= raw_events@);
        proof {
            lemma_deliveries_are_filter_map(raw_events@, self.host_files().dom());
        }
        out
    }
}


impl<F: HostFile> HostFileEpoller<F> {
    /// Adds `host_file` under the host fd that it reports (see `add_fd`).
    pub fn add_file(&mut self, host_file: F, ep_attr: &EpollAttr) -> (r: Option<EpollCtlRequest>)
        ensures
            final(self).host_files() == old(self).host_files().insert(
                host_file.host_fd_num(),
                host_file,
            ),
            r == add_outcome(
                old(self).host_files(),
                old(self).epfd(),
                host_file.host_fd_num(),
                ep_attr@,
            ),
            final(self).epfd() == old(self).epfd(),
            final(self).is_ready() == old(self).is_ready(),
    {
        let host_fd = host_file.host_fd().to_u32();
        self.add_fd(host_fd, host_file, ep_attr)
    }

    /// Changes the attributes of `host_file`, found by the host fd that it reports
    /// (see `mod_fd`).
    pub fn mod_file(&self, host_file: &F, ep_attr: &EpollAttr) -> (r: Result<
        EpollCtlRequest,
        Errno,
    >)
        ensures
            r == mod_outcome(self.host_files(), self.epfd(), host_file.host_fd_num(), ep_attr@),
    {
        let host_fd = host_file.host_fd().to_u32();
        self.mod_fd(host_fd, ep_attr)
    }

    /// Removes `host_file`, found by the host fd that it reports (see `del_fd`).
    pub fn del_file(&mut self, host_file: &F) -> (r: Result<EpollCtlRequest, Errno>)
        ensures
            final(self).host_files() == old(self).host_files().remove(host_file.host_fd_num()),
            r == del_outcome(old(self).host_files(), old(self).epfd(), host_file.host_fd_num()),
            final(self).epfd() == old(self).epfd(),
            final(self).is_ready() == old(self).is_ready(),
    {
        let host_fd = host_file.host_fd().to_u32();
        self.del_fd(host_fd)
    }

    /// Hands the host events `raw_events`, which the host epoll instance returned,
    /// to the added host files that they name, in order, and returns how many
    /// events there were.
    pub fn poll_files(&self, raw_events: &[CEpollEvent]) -> (r: usize)
        ensures
            r == raw_events@.len(),
    {
        let deliveries = self.host_events_to_deliver(raw_events);
        let mut j: usize = 0;
        while j < deliveries.len()
            invariant
                j <= deliveries@.len(),
            decreases deliveries@.len() - j,
        {
            let (host_fd, io_events) = deliveries[j];
            match self.host_files.get(&host_fd) {
                Some(host_file) => host_file.recv_host_events(&io_events),
                None => {},
            }
            j = j + 1;
        }
        // Every delivery was handed to its file.
        assert(j == deliveries@.len());
        raw_events.len()
    }
}

/// Adding a host file that was not added and then deleting it gives the set of
/// host files back as it was; the host is asked to add it, then to delete it.
pub proof fn lemma_add_then_del<F>(
    files: Map<u32, F>,
    epfd: u32,
    host_fd: u32,
    host_file: F,
    attr: EpollAttrView,
)
    requires
        !files.contains_key(host_fd),
    ensures
        files.insert(host_fd, host_file).remove(host_fd) == files,
        add_outcome(files, epfd, host_fd, attr) == Some(
            ctl_request(epfd, EpollCtlCmd::Add, host_fd, Some(attr)),
        ),
        del_outcome(files.insert(host_fd, host_file), epfd, host_fd) == Ok::<
            EpollCtlRequest,
            Errno,
        >(ctl_request(epfd, EpollCtlCmd::Del, host_fd, None)),
{
    assert(files.insert(host_fd, host_file).remove(host_fd) =~= files);
}

/// Adding a host fd twice asks the host once; the second add keeps the set of
/// host fds as it was.
pub proof fn lemma_add_twice<F>(
    files: Map<u32, F>,
    epfd: u32,
    host_fd: u32,
    f1: F,
    f2: F,
    attr: EpollAttrView,
)
    ensures
        add_outcome(files.insert(host_fd, f1), epfd, host_fd, attr) is None,
        files.insert(host_fd, f1).insert(host_fd, f2).dom() == files.insert(host_fd, f1).dom(),
{
    assert(files.insert(host_fd, f1).insert(host_fd, f2).dom() =~= files.insert(host_fd, f1).dom());
}

/// A host file can be modified once added and until deleted, and a deleted host
/// file can be neither modified nor deleted again.
pub proof fn lemma_mod_and_del_need_added<F>(
    files: Map<u32, F>,
    epfd: u32,
    host_fd: u32,
    host_file: F,
    attr: EpollAttrView,
)
    ensures
        mod_outcome(files.insert(host_fd, host_file), epfd, host_fd, attr) == Ok::<
            EpollCtlRequest,
            Errno,
        >(ctl_request(epfd, EpollCtlCmd::Mod, host_fd, Some(attr))),
        mod_outcome(files.remove(host_fd), epfd, host_fd, attr) == Err::<EpollCtlRequest, Errno>(
            Errno::ENOENT,
        ),
        del_outcome(files.remove(host_fd), epfd, host_fd) == Err::<EpollCtlRequest, Errno>(
            Errno::ENOENT,
        ),
{
}

/// After the host reports `events`, `poll` reports `IN` exactly when `events`
/// holds `IN`, and nothing else.
pub proof fn lemma_poll_after_recv(events: u32)
    ensures
        poll_events(ready_after(events)) == (if events & events::IN == events::IN {
            events::IN
        } else {
            0
        }),
{
}

/// The event registered with the host carries the host fd as its user data and
/// the host form of the attributes as its mask.
pub proof fn lemma_ctl_request_user_data(epfd: u32, cmd: EpollCtlCmd, host_fd: u32, attr: EpollAttrView)
    ensures
        ctl_request(epfd, cmd, host_fd, Some(attr)).event == Some(
            CEpollEvent { events: attr_to_c(attr).events, u64: host_fd as u64 },
        ),
        ctl_request(epfd, cmd, host_fd, None).event is None,
{
}


/// The deliveries of host events are the events whose user data names an added
/// host file, in their order, each as its host fd (the user data cut to 32 bits)
/// and its known events: no such event is dropped, whatever events it reports,
/// and no other event is delivered.
pub proof fn lemma_deliveries_are_filter_map(raw: Seq<CEpollEvent>, fds: Set<u32>)
    ensures
        host_event_deliveries(raw, fds) == raw.filter(names_added_fd(fds)).map_values(
            |e: CEpollEvent| (e.u64 as u32, e.events & events::ALL),
        ),
    decreases raw.len(),
{
    reveal(Seq::filter);
    let g = |e: CEpollEvent| (e.u64 as u32, e.events & events::ALL);
    if raw.len() == 0 {
        assert(raw.filter(names_added_fd(fds)).map_values(g) =~= Seq::<(u32, u32)>::empty());
    } else {
        lemma_deliveries_are_filter_map(raw.drop_last(), fds);
        let f = raw.drop_last().filter(names_added_fd(fds));
        if fds.contains(raw.last().u64 as u32) {
            assert(f.push(raw.last()).map_values(g) =~= f.map_values(g).push(g(raw.last())));
        }
    }
}

/// One more host event adds one delivery, of that event's host fd and known
/// events, exactly when its user data names an added host file, and nothing
/// otherwise.
pub proof fn lemma_deliveries_push(s: Seq<CEpollEvent>, e: CEpollEvent, fds: Set<u32>)
    ensures
        fds.contains(e.u64 as u32) ==> host_event_deliveries(s.push(e), fds)
            == host_event_deliveries(s, fds).push((e.u64 as u32, e.events & events::ALL)),
        !fds.contains(e.u64 as u32) ==> host_event_deliveries(s.push(e), fds)
            == host_event_deliveries(s, fds),
{
    assert(s.push(e).drop_last() =~= s);
    lemma_deliveries_are_filter_map(s.push(e), fds);
    lemma_deliveries_are_filter_map(s, fds);
}

/// The number of deliveries is the number of host events that name an added host
/// file, and never more than the number of host events.
pub proof fn lemma_deliveries_len(raw: Seq<CEpollEvent>, fds: Set<u32>)
    ensures
        host_event_deliveries(raw, fds).len() == raw.filter(names_added_fd(fds)).len(),
        host_event_deliveries(raw, fds).len() <= raw.len(),
{
    lemma_deliveries_are_filter_map(raw, fds);
    raw.lemma_filter_len(names_added_fd(fds));
}

/// The `epoll_ctl` request carries exactly the command, epoll fd and target fd it
/// is made for; it carries an event exactly when attributes are given, and then
/// the event holds the mask and flags of the attributes and the target fd as its
/// user data.
pub proof fn lemma_ctl_request_fields(
    epfd: u32,
    cmd: EpollCtlCmd,
    host_fd: u32,
    attr: Option<EpollAttrView>,
)
    ensures
        ctl_request(epfd, cmd, host_fd, attr).cmd == cmd,
        ctl_request(epfd, cmd, host_fd, attr).epfd == epfd as i32,
        ctl_request(epfd, cmd, host_fd, attr).fd == host_fd as i32,
        ctl_request(epfd, cmd, host_fd, attr).event is Some <==> attr is Some,
        attr matches Some(a) ==> ctl_request(epfd, cmd, host_fd, attr).event == Some(
            CEpollEvent { events: a.event.mask | a.flags, u64: host_fd as u64 },
        ),
{
}

/// Adding a host fd that is not added asks the host to ADD it; modifying an added
/// one asks it to MODIFY it, and deleting one asks it to DELETE it with no event;
/// each request names the epoll fd and the host fd, whatever the attributes.
pub proof fn lemma_outcome_commands<F>(
    files: Map<u32, F>,
    epfd: u32,
    host_fd: u32,
    attr: EpollAttrView,
)
    ensures
        !files.contains_key(host_fd) ==> (add_outcome(files, epfd, host_fd, attr) matches Some(q)
            && q.cmd == EpollCtlCmd::Add && q.epfd == epfd as i32 && q.fd == host_fd as i32),
        files.contains_key(host_fd) ==> (mod_outcome(files, epfd, host_fd, attr) matches Ok(q)
            && q.cmd == EpollCtlCmd::Mod && q.epfd == epfd as i32 && q.fd == host_fd as i32),
        files.contains_key(host_fd) ==> (del_outcome(files, epfd, host_fd) matches Ok(q) && q.cmd
            == EpollCtlCmd::Del && q.epfd == epfd as i32 && q.fd == host_fd as i32
            && q.event is None),
{
}

} // verus!
