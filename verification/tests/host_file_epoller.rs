use std::cell::Cell;
use std::rc::Rc;

use occlum_libos::epoll::{
    CEpollEvent, EpollAttr, EpollCtlCmd, EpollCtlRequest, EpollEvent, EpollFlags, HostFileEpoller,
    EDGE_TRIGGER,
};
use occlum_libos::error::Errno;
use occlum_libos::fs::events::{ERR, HUP, IN, OUT};
use occlum_libos::fs::{HostFd, HostFdRegistry, HostFile, IoEvents};

struct TestFile {
    fd: HostFd,
    received: Cell<Option<u32>>,
}

impl HostFile for TestFile {
    fn host_fd_num(&self) -> u32 {
        self.fd.to_u32()
    }

    fn host_fd(&self) -> &HostFd {
        &self.fd
    }

    fn recv_host_events(&self, events: &IoEvents) {
        self.received.set(Some(events.bits()));
    }
}

#[derive(Clone)]
struct SharedFile(Rc<TestFile>);

impl HostFile for SharedFile {
    fn host_fd_num(&self) -> u32 {
        self.0.host_fd_num()
    }

    fn host_fd(&self) -> &HostFd {
        self.0.host_fd()
    }

    fn recv_host_events(&self, events: &IoEvents) {
        self.0.recv_host_events(events)
    }
}

fn attr(mask: u32, flags: u32) -> EpollAttr {
    EpollAttr::new(
        EpollEvent::new(IoEvents::from_bits_truncate(mask), 1234),
        EpollFlags::from_bits_truncate(flags),
    )
}

#[test]
fn epoller_new_is_not_ready() {
    let mut registry = HostFdRegistry::new();
    let epfd = HostFd::new(5, &mut registry);
    let epoller: HostFileEpoller<u8> = HostFileEpoller::new(epfd);
    assert_eq!(epoller.host_fd().to_u32(), 5);
    assert!(epoller.poll().is_empty());
    assert!(epoller.host_file(0).is_none());
}

#[test]
fn epoller_poll_follows_host_events() {
    let mut registry = HostFdRegistry::new();
    let mut epoller: HostFileEpoller<u8> = HostFileEpoller::new(HostFd::new(5, &mut registry));
    epoller.recv_host_events(&IoEvents::from_bits_truncate(IN | OUT));
    assert_eq!(epoller.poll().bits(), IN);
    epoller.recv_host_events(&IoEvents::from_bits_truncate(OUT | ERR));
    assert!(epoller.poll().is_empty());
    epoller.recv_host_events(&IoEvents::from_bits_truncate(IN));
    assert_eq!(epoller.poll().bits(), IN);
    epoller.recv_host_events(&IoEvents::empty());
    assert_eq!(epoller.poll().bits(), 0);
}

#[test]
fn epoller_add_mod_del_fd() {
    let mut registry = HostFdRegistry::new();
    let mut epoller: HostFileEpoller<&str> = HostFileEpoller::new(HostFd::new(5, &mut registry));
    let a = attr(IN, EDGE_TRIGGER);
    let req = epoller.add_fd(10, "first", &a);
    assert_eq!(
        req,
        Some(EpollCtlRequest {
            epfd: 5,
            cmd: EpollCtlCmd::Add,
            fd: 10,
            event: Some(CEpollEvent { events: IN | ERR | HUP | EDGE_TRIGGER, u64: 10 }),
        })
    );
    assert_eq!(epoller.host_file(10), Some(&"first"));
    // A second add replaces the file and asks the host nothing.
    assert_eq!(epoller.add_fd(10, "second", &a), None);
    assert_eq!(epoller.host_file(10), Some(&"second"));

    let m = attr(OUT, 0);
    assert_eq!(
        epoller.mod_fd(10, &m),
        Ok(EpollCtlRequest {
            epfd: 5,
            cmd: EpollCtlCmd::Mod,
            fd: 10,
            event: Some(CEpollEvent { events: OUT | ERR | HUP, u64: 10 }),
        })
    );
    assert_eq!(epoller.mod_fd(11, &m), Err(Errno::ENOENT));

    assert_eq!(
        epoller.del_fd(10),
        Ok(EpollCtlRequest { epfd: 5, cmd: EpollCtlCmd::Del, fd: 10, event: None })
    );
    assert!(epoller.host_file(10).is_none());
    assert_eq!(epoller.del_fd(10), Err(Errno::ENOENT));
    assert_eq!(epoller.mod_fd(10, &m), Err(Errno::ENOENT));
}

#[test]
fn epoller_large_fd_wraps_to_negative_i32() {
    let mut registry = HostFdRegistry::new();
    let mut epoller: HostFileEpoller<u8> =
        HostFileEpoller::new(HostFd::new(0xffff_ffff, &mut registry));
    let req = epoller.add_fd(0x8000_0000, 1, &attr(IN, 0)).unwrap();
    assert_eq!(req.epfd, -1);
    assert_eq!(req.fd, i32::MIN);
    assert_eq!(req.event.unwrap().u64, 0x8000_0000);
}

#[test]
fn epoller_deliveries_skip_unknown_fds() {
    let mut registry = HostFdRegistry::new();
    let mut epoller: HostFileEpoller<u8> = HostFileEpoller::new(HostFd::new(5, &mut registry));
    assert!(epoller.add_fd(10, 0, &attr(IN, 0)).is_some());
    assert!(epoller.add_fd(20, 1, &attr(OUT, 0)).is_some());
    let raw = [
        CEpollEvent { events: IN, u64: 10 },
        CEpollEvent { events: OUT, u64: 99 },
        CEpollEvent { events: 0xffff_ffff, u64: (1 << 32) | 20 },
        CEpollEvent { events: HUP | 0x4000, u64: 10 },
    ];
    let d = epoller.host_events_to_deliver(&raw);
    let bits: Vec<(u32, u32)> = d.iter().map(|(fd, e)| (*fd, e.bits())).collect();
    assert_eq!(bits, vec![(10, IN), (20, 0x201f), (10, HUP)]);
    assert!(epoller.host_events_to_deliver(&[]).is_empty());
}

#[test]
fn epoller_files_poll_and_delivery() {
    let mut registry = HostFdRegistry::new();
    let mut epoller = HostFileEpoller::new(HostFd::new(5, &mut registry));
    let f1 = SharedFile(Rc::new(TestFile {
        fd: HostFd::new(10, &mut registry),
        received: Cell::new(None),
    }));
    let f2 = SharedFile(Rc::new(TestFile {
        fd: HostFd::new(11, &mut registry),
        received: Cell::new(None),
    }));
    let req = epoller.add_file(f1.clone(), &attr(IN, 0)).unwrap();
    assert_eq!(req.fd, 10);
    assert_eq!(req.cmd, EpollCtlCmd::Add);
    assert!(epoller.add_file(f1.clone(), &attr(IN, 0)).is_none());
    assert!(epoller.add_file(f2.clone(), &attr(OUT, 0)).is_some());
    let raw = [CEpollEvent { events: IN | HUP, u64: 10 }, CEpollEvent { events: OUT, u64: 12 }];
    assert_eq!(epoller.poll_files(&raw), 2);
    assert_eq!(f1.0.received.get(), Some(IN | HUP));
    assert_eq!(f2.0.received.get(), None);
    assert_eq!(epoller.mod_file(&f2, &attr(IN, 0)).unwrap().cmd, EpollCtlCmd::Mod);
    assert_eq!(epoller.del_file(&f2).unwrap().fd, 11);
    assert_eq!(epoller.del_file(&f2), Err(Errno::ENOENT));
    assert_eq!(epoller.mod_file(&f2, &attr(IN, 0)), Err(Errno::ENOENT));
    assert_eq!(epoller.poll_files(&[CEpollEvent { events: OUT, u64: 11 }]), 1);
    assert_eq!(f2.0.received.get(), None);
}
