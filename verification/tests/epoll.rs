use occlum_libos::epoll::{
    CEpollEvent, EpollAttr, EpollEntry, EpollCtlCmd, EpollEvent, EpollFlags, ALL_FLAGS, DEFAULT_EVENTS,
    EDGE_TRIGGER, EXCLUSIVE, ONE_SHOT, WAKE_UP,
};
use occlum_libos::error::Errno;
use occlum_libos::fs::events::{ALL, ERR, HUP, IN, OUT, PRI, RDHUP};
use occlum_libos::fs::IoEvents;

#[test]
fn ctl_cmd_try_from_valid() {
    assert_eq!(EpollCtlCmd::try_from(1), Ok(EpollCtlCmd::Add));
    assert_eq!(EpollCtlCmd::try_from(2), Ok(EpollCtlCmd::Del));
    assert_eq!(EpollCtlCmd::try_from(3), Ok(EpollCtlCmd::Mod));
}

#[test]
fn ctl_cmd_try_from_invalid_is_einval() {
    for n in [0, 4, -1, i32::MAX, i32::MIN] {
        assert_eq!(EpollCtlCmd::try_from(n), Err(Errno::EINVAL));
    }
}

#[test]
fn ctl_cmd_code_roundtrip() {
    for cmd in [EpollCtlCmd::Add, EpollCtlCmd::Del, EpollCtlCmd::Mod] {
        assert_eq!(EpollCtlCmd::try_from(cmd.code()), Ok(cmd));
    }
    assert_eq!(EpollCtlCmd::Add.code(), 1);
    assert_eq!(EpollCtlCmd::Del.code(), 2);
    assert_eq!(EpollCtlCmd::Mod.code(), 3);
}

#[test]
fn io_events_bit_values() {
    assert_eq!((IN, PRI, OUT, ERR, HUP, RDHUP), (0x1, 0x2, 0x4, 0x8, 0x10, 0x2000));
    assert_eq!(ALL, IN | PRI | OUT | ERR | HUP | RDHUP);
    assert_eq!(IoEvents::all().bits(), 0x201f);
    assert_eq!(IoEvents::empty().bits(), 0);
    assert!(IoEvents::empty().is_empty());
    assert!(!IoEvents::all().is_empty());
}

#[test]
fn io_events_truncate_and_ops() {
    let e = IoEvents::from_bits_truncate(0xffff_ffff);
    assert_eq!(e.bits(), 0x201f);
    let a = IoEvents::from_bits_truncate(IN | OUT | 0x100);
    assert_eq!(a.bits(), IN | OUT);
    let b = IoEvents::from_bits_truncate(OUT | ERR);
    assert_eq!(a.union(b).bits(), IN | OUT | ERR);
    assert_eq!(a.intersection(b).bits(), OUT);
    assert!(a.intersects(b));
    assert!(!a.intersects(IoEvents::from_bits_truncate(HUP)));
    assert!(a.contains(IoEvents::from_bits_truncate(IN)));
    assert!(!a.contains(b));
    assert!(a.contains(IoEvents::empty()));
}

#[test]
fn epoll_flags_values_and_ops() {
    assert_eq!((EXCLUSIVE, WAKE_UP, ONE_SHOT, EDGE_TRIGGER), (1 << 12, 1 << 13, 1 << 14, 1 << 15));
    assert_eq!(ALL_FLAGS, EXCLUSIVE | WAKE_UP | ONE_SHOT | EDGE_TRIGGER);
    let f = EpollFlags::from_bits_truncate(0xffff_ffff);
    assert_eq!(f.bits(), 0xf000);
    let et = EpollFlags::from_bits_truncate(EDGE_TRIGGER | IN);
    assert_eq!(et.bits(), EDGE_TRIGGER);
    let os = EpollFlags::from_bits_truncate(ONE_SHOT);
    assert!(et.union(os).contains(os));
    assert!(et.union(os).intersects(et));
    assert!(!et.intersects(os));
    assert_eq!(EpollFlags::empty().bits(), 0);
}

#[test]
fn epoll_event_accessors_and_c_roundtrip() {
    let ev = EpollEvent::new(IoEvents::from_bits_truncate(IN | HUP), 0xdead_beef_0000_0001);
    assert_eq!(ev.mask().bits(), IN | HUP);
    assert_eq!(ev.user_data(), 0xdead_beef_0000_0001);
    let c = ev.to_c();
    assert_eq!(c, CEpollEvent { events: IN | HUP, u64: 0xdead_beef_0000_0001 });
    assert_eq!(EpollEvent::from_c(&c), ev);
}

#[test]
fn epoll_event_from_c_drops_unknown_bits() {
    let c = CEpollEvent { events: IN | ONE_SHOT | 0x40, u64: 5 };
    let ev = EpollEvent::from_c(&c);
    assert_eq!(ev.mask().bits(), IN);
    assert_eq!(ev.user_data(), 5);
}

#[test]
fn epoll_attr_new_adds_default_events() {
    let ev = EpollEvent::new(IoEvents::from_bits_truncate(IN), 7);
    let attr = EpollAttr::new(ev, EpollFlags::from_bits_truncate(ONE_SHOT));
    assert_eq!(attr.event().mask().bits(), IN | ERR | HUP);
    assert_eq!(attr.event().user_data(), 7);
    assert_eq!(attr.flags().bits(), ONE_SHOT);
    assert_eq!(DEFAULT_EVENTS, ERR | HUP);
    // Adding the defaults again changes nothing.
    let again = EpollAttr::new(*attr.event(), attr.flags());
    assert_eq!(again, attr);
}

#[test]
fn epoll_attr_to_c_merges_flags() {
    let ev = EpollEvent::new(IoEvents::from_bits_truncate(IN | OUT), 99);
    let attr = EpollAttr::new(ev, EpollFlags::from_bits_truncate(EDGE_TRIGGER | ONE_SHOT));
    let c = attr.to_c();
    assert_eq!(c.events, IN | OUT | ERR | HUP | EDGE_TRIGGER | ONE_SHOT);
    assert_eq!(c.u64, 99);
    assert_eq!(EpollAttr::from_c(&c), attr);
}

#[test]
fn epoll_attr_from_c_keeps_known_bits() {
    let c = CEpollEvent { events: 0xffff_ffff, u64: 1 };
    let attr = EpollAttr::from_c(&c);
    assert_eq!(attr.event().mask().bits(), 0x201f);
    assert_eq!(attr.flags().bits(), 0xf000);
    assert_eq!(attr.to_c(), CEpollEvent { events: 0xf01f, u64: 1 });
    let c = CEpollEvent { events: 0, u64: 2 };
    let attr = EpollAttr::from_c(&c);
    assert_eq!(attr.event().mask().bits(), ERR | HUP);
    assert_eq!(attr.flags().bits(), 0);
    assert_eq!(attr.to_c(), CEpollEvent { events: ERR | HUP, u64: 2 });
}

#[test]
fn epoll_attr_rdhup_and_wake_up_share_a_bit() {
    // RDHUP and WAKE_UP are the same bit of the host mask, so the roundtrip
    // through the host form adds the other one.
    let ev = EpollEvent::new(IoEvents::from_bits_truncate(RDHUP), 3);
    let attr = EpollAttr::new(ev, EpollFlags::empty());
    let back = EpollAttr::from_c(&attr.to_c());
    assert_eq!(back.event().mask().bits(), RDHUP | ERR | HUP);
    assert_eq!(back.flags().bits(), WAKE_UP);
    assert_ne!(back, attr);
    // With both set, the roundtrip keeps the attributes.
    let both = EpollAttr::new(ev, EpollFlags::from_bits_truncate(WAKE_UP));
    assert_eq!(EpollAttr::from_c(&both.to_c()), both);
}

#[test]
fn epoll_entry_new_holds_its_parts() {
    let attr = EpollAttr::new(EpollEvent::new(IoEvents::from_bits_truncate(IN), 1), EpollFlags::empty());
    let entry = EpollEntry::new(4, "file", attr);
    let text = format!("{:?}", entry);
    assert!(text.contains("fd: 4"));
    assert!(text.contains("\"file\""));
    assert!(text.contains("is_ready: false"));
    assert!(text.contains("is_deleted: false"));
}
