pub mod epoll_file;
pub mod host_file_epoller;

pub use self::epoll_file::{EpollEntry, EpollFile};
pub use self::host_file_epoller::{EpollCtlRequest, HostFileEpoller};

use vstd::prelude::*;

use crate::error::Errno;
use crate::fs::events;
use crate::fs::events::{valid_io_events, IoEvents};

verus! {

/// The command of an `epoll_ctl` call.
#[derive(Copy, Clone, Debug, PartialEq, Eq, Structural)]
pub enum EpollCtlCmd {
    /// Add a file decriptor to the interface
    Add,
    /// Remove a file decriptor from the interface
    Del,
    /// Change file decriptor epoll_event structre
    Mod,
}

/// The operation number of each command, as `epoll_ctl` takes it.
pub open spec fn ctl_cmd_code(cmd: EpollCtlCmd) -> i32 {
    match cmd {
        EpollCtlCmd::Add => 1,
        EpollCtlCmd::Del => 2,
        EpollCtlCmd::Mod => 3,
    }
}

/// The command that an operation number stands for, or `EINVAL`.
pub open spec fn ctl_cmd_from_code(op_num: i32) -> Result<EpollCtlCmd, Errno> {
    if op_num == 1 {
        Ok(EpollCtlCmd::Add)
    } else if op_num == 2 {
        Ok(EpollCtlCmd::Del)
    } else if op_num == 3 {
        Ok(EpollCtlCmd::Mod)
    } else {
        Err(Errno::EINVAL)
    }
}

impl EpollCtlCmd {
    /// Parses an operation number (1: add, 2: delete, 3: modify).
    pub fn try_from(op_num: i32) -> (r: Result<EpollCtlCmd, Errno>)
        ensures
            r == ctl_cmd_from_code(op_num),
    {
        match op_num {
            1 => Ok(EpollCtlCmd::Add),
            2 => Ok(EpollCtlCmd::Del),
            3 => Ok(EpollCtlCmd::Mod),
            _ => Err(Errno::EINVAL),
        }
    }

    /// The operation number of this command.
    pub fn code(self) -> (r: i32)
        ensures
            r == ctl_cmd_code(self),
    {
        match self {
            EpollCtlCmd::Add => 1,
            EpollCtlCmd::Del => 2,
            EpollCtlCmd::Mod => 3,
        }
    }
}

/// Parsing the operation number of a command gives the command back.
pub proof fn lemma_ctl_cmd_code_roundtrip(cmd: EpollCtlCmd)
    ensures
        ctl_cmd_from_code(ctl_cmd_code(cmd)) == Ok::<EpollCtlCmd, Errno>(cmd),
{
}

/// An operation number is accepted exactly when it is the number of some command,
/// and then it parses to that command.
pub proof fn lemma_ctl_cmd_from_code_inverse(op_num: i32)
    ensures
        ctl_cmd_from_code(op_num) is Ok <==> (1 <= op_num <= 3),
        ctl_cmd_from_code(op_num) matches Ok(cmd) ==> ctl_cmd_code(cmd) == op_num,
{
}


/// Exclusive wake-up of one of the epoll instances that watch a file.
pub const EXCLUSIVE: u32 = 0x1000;
/// Keep the system awake while events are pending.
pub const WAKE_UP: u32 = 0x2000;
/// Report an event once, then disable the entry.
pub const ONE_SHOT: u32 = 0x4000;
/// Report a change of state once (edge-triggered).
pub const EDGE_TRIGGER: u32 = 0x8000;
/// Every flag that an `EpollFlags` can hold.
pub const ALL_FLAGS: u32 = 0xf000;

/// The default events that every epoll entry reports: `ERR | HUP`.
pub const DEFAULT_EVENTS: u32 = 0x0018;

/// The flags of an epoll entry, held as a bit mask of the constants above.
#[derive(Copy, Clone, Debug, PartialEq, Eq, Structural)]
pub struct EpollFlags {
    bits: u32,
}

impl View for EpollFlags {
    type V = u32;

    closed spec fn view(&self) -> u32 {
        self.bits
    }
}

/// A bit mask holds only known flags.
pub open spec fn valid_epoll_flags(bits: u32) -> bool {
    bits & !ALL_FLAGS == 0
}

impl EpollFlags {
    /// An `EpollFlags` holds only known flags.
    #[verifier::type_invariant]
    pub open spec fn inv(self) -> bool {
        valid_epoll_flags(self@)
    }

    /// No flag.
    pub fn empty() -> (r: EpollFlags)
        ensures
            r@ == 0,
            valid_epoll_flags(r@),
    {
        assert(0u32 & !0xf000u32 == 0) by (bit_vector);
        EpollFlags { bits: 0 }
    }

    /// The flags of `bits`, with the unknown bits dropped.
    pub fn from_bits_truncate(bits: u32) -> (r: EpollFlags)
        ensures
            r@ == bits & ALL_FLAGS,
            valid_epoll_flags(r@),
    {
        assert((bits & 0xf000u32) & !0xf000u32 == 0) by (bit_vector);
        EpollFlags { bits: bits & ALL_FLAGS }
    }

    /// The bit mask of these flags.
    pub fn bits(&self) -> (r: u32)
        ensures
            r == self@,
            valid_epoll_flags(r),
    {
        proof {
            use_type_invariant(self);
        }
        self.bits
    }

    /// Whether every flag of `other` is set here.
    pub fn contains(&self, other: EpollFlags) -> (r: bool)
        ensures
            r == (self@ & other@ == other@),
    {
        self.bits & other.bits == other.bits
    }

    /// Whether a flag of `other` is set here.
    pub fn intersects(&self, other: EpollFlags) -> (r: bool)
        ensures
            r == (self@ & other@ != 0),
    {
        self.bits & other.bits != 0
    }

    /// The flags that are set here or in `other`.
    pub fn union(self, other: EpollFlags) -> (r: EpollFlags)
        ensures
            r@ == self@ | other@,
            valid_epoll_flags(r@),
    {
        proof {
            use_type_invariant(&self);
            use_type_invariant(&other);
            let (a, b) = (self@, other@);
            assert(a & !0xf000u32 == 0 && b & !0xf000u32 == 0 ==> (a | b) & !0xf000u32 == 0)
                by (bit_vector);
        }
        EpollFlags { bits: self.bits | other.bits }
    }
}

/// The `struct epoll_event` of the host, field for field.
#[derive(Copy, Clone, Debug, PartialEq, Eq, Structural)]
pub struct CEpollEvent {
    /// The event mask, with the flags in its high bits.
    pub events: u32,
    /// The user data.
    pub u64: u64,
}

/// What an `EpollEvent` holds: its event mask and its user data.
pub struct EpollEventView {
    pub mask: u32,
    pub user_data: u64,
}

/// What an `EpollAttr` holds: its event and its flags.
pub struct EpollAttrView {
    pub event: EpollEventView,
    pub flags: u32,
}

/// The event that a host event stands for: its known events and its user data.
pub open spec fn event_from_c(c: CEpollEvent) -> EpollEventView {
    EpollEventView { mask: c.events & events::ALL, user_data: c.u64 }
}

/// The host event of an event.
pub open spec fn event_to_c(e: EpollEventView) -> CEpollEvent {
    CEpollEvent { events: e.mask, u64: e.user_data }
}

/// The event with the default events (`ERR | HUP`) added to its mask.
pub open spec fn with_default_events(e: EpollEventView) -> EpollEventView {
    EpollEventView { mask: e.mask | DEFAULT_EVENTS, user_data: e.user_data }
}

/// The attributes made of an event and flags: the default events are added.
pub open spec fn attr_new(e: EpollEventView, flags: u32) -> EpollAttrView {
    EpollAttrView { event: with_default_events(e), flags }
}

/// The attributes that a host event stands for.
pub open spec fn attr_from_c(c: CEpollEvent) -> EpollAttrView {
    attr_new(event_from_c(c), c.events & ALL_FLAGS)
}

/// The host event of attributes: the flags go into the high bits of the mask.
pub open spec fn attr_to_c(a: EpollAttrView) -> CEpollEvent {
    CEpollEvent { events: a.event.mask | a.flags, u64: a.event.user_data }
}

/// An epoll event: the events that happened or are awaited, and the user data.
#[derive(Copy, Clone, Debug, PartialEq, Eq, Structural)]
pub struct EpollEvent {
    mask: IoEvents,
    user_data: u64,
}

impl View for EpollEvent {
    type V = EpollEventView;

    closed spec fn view(&self) -> EpollEventView {
        EpollEventView { mask: self.mask@, user_data: self.user_data }
    }
}

impl EpollEvent {
    pub fn new(mask: IoEvents, user_data: u64) -> (r: EpollEvent)
        ensures
            r@ == (EpollEventView { mask: mask@, user_data }),
            valid_io_events(r@.mask),
    {
        proof {
            use_type_invariant(&mask);
        }
        EpollEvent { mask, user_data }
    }

    pub fn mask(&self) -> (r: IoEvents)
        ensures
            r@ == self@.mask,
            valid_io_events(r@),
    {
        proof {
            use_type_invariant(&self.mask);
        }
        self.mask
    }

    pub fn user_data(&self) -> (r: u64)
        ensures
            r == self@.user_data,
    {
        self.user_data
    }

    pub fn from_c(c_event: &CEpollEvent) -> (r: EpollEvent)
        ensures
            r@ == event_from_c(*c_event),
            r@.mask == c_event.events & events::ALL,
            r@.user_data == c_event.u64,
            valid_io_events(r@.mask),
    {
        let mask = IoEvents::from_bits_truncate(c_event.events);
        let user_data = c_event.u64;
        EpollEvent { mask, user_data }
    }

    pub fn to_c(&self) -> (r: CEpollEvent)
        ensures
            r == event_to_c(self@),
            r.events == self@.mask,
            r.u64 == self@.user_data,
            valid_io_events(self@.mask),
            event_from_c(r) == self@,
    {
        proof {
            use_type_invariant(&self.mask);
            lemma_event_c_roundtrip(self@);
        }
        CEpollEvent { events: self.mask.bits(), u64: self.user_data }
    }
}

/// Epoll attributes for epoll commands.
#[derive(Copy, Clone, Debug, PartialEq, Eq, Structural)]
pub struct EpollAttr {
    event: EpollEvent,
    flags: EpollFlags,
}

impl View for EpollAttr {
    type V = EpollAttrView;

    closed spec fn view(&self) -> EpollAttrView {
        EpollAttrView { event: self.event@, flags: self.flags@ }
    }
}

impl EpollAttr {
    pub fn new(event: EpollEvent, flags: EpollFlags) -> (r: EpollAttr)
        ensures
            r@ == attr_new(event@, flags@),
            r@.event.mask == event@.mask | DEFAULT_EVENTS,
            r@.event.user_data == event@.user_data,
            r@.flags == flags@,
            valid_attr(r@),
    {
        proof {
            use_type_invariant(&event.mask);
            use_type_invariant(&flags);
            lemma_attr_new_reports_defaults(event@, flags@);
        }
        EpollAttr { event, flags }.add_default_events()
    }

    // Add two events that are reported by default
    fn add_default_events(self) -> (r: EpollAttr)
        ensures
            r@ == (EpollAttrView { event: with_default_events(self@.event), flags: self@.flags }),
            r@.event.mask == self@.event.mask | DEFAULT_EVENTS,
            r@.event.user_data == self@.event.user_data,
            r@.flags == self@.flags,
            with_default_events(r@.event) == r@.event,
    {
        proof {
            lemma_default_events_idempotent(self@.event);
        }
        let mut this = self;
        let defaults = IoEvents::from_bits_truncate(events::ERR | events::HUP);
        assert((0x8u32 | 0x10u32) & 0x201fu32 == 0x18u32) by (bit_vector);
        this.event.mask = this.event.mask.union(defaults);
        this
    }

    pub fn event(&self) -> (r: &EpollEvent)
        ensures
            r@ == self@.event,
            valid_io_events(r@.mask),
    {
        proof {
            use_type_invariant(&self.event.mask);
        }
        &self.event
    }

    pub fn flags(&self) -> (r: EpollFlags)
        ensures
            r@ == self@.flags,
            valid_epoll_flags(r@),
    {
        proof {
            use_type_invariant(&self.flags);
        }
        self.flags
    }

    pub fn from_c(c_event: &CEpollEvent) -> (r: EpollAttr)
        ensures
            r@ == attr_from_c(*c_event),
            r@.event.mask == (c_event.events & events::ALL) | DEFAULT_EVENTS,
            r@.event.user_data == c_event.u64,
            r@.flags == c_event.events & ALL_FLAGS,
            valid_attr(r@),
    {
        proof {
            events::lemma_from_bits_truncate_valid(c_event.events);
            lemma_attr_new_reports_defaults(event_from_c(*c_event), c_event.events & ALL_FLAGS);
            let e = c_event.events;
            assert((e & 0xf000u32) & !0xf000u32 == 0) by (bit_vector);
        }
        let event = EpollEvent::from_c(c_event);
        let flags = EpollFlags::from_bits_truncate(c_event.events);
        EpollAttr { event, flags }.add_default_events()
    }

    pub fn to_c(&self) -> (r: CEpollEvent)
        ensures
            r == attr_to_c(self@),
            r.events == self@.event.mask | self@.flags,
            r.u64 == self@.event.user_data,
            attr_from_c(r) == attr_new(
                EpollEventView {
                    mask: self@.event.mask | (self@.flags & events::RDHUP),
                    user_data: self@.event.user_data,
                },
                self@.flags | (self@.event.mask & WAKE_UP),
            ),
    {
        proof {
            use_type_invariant(&self.event.mask);
            use_type_invariant(&self.flags);
            lemma_attr_c_roundtrip_general(self@);
        }
        let mut c_event = self.event.to_c();
        c_event.events = c_event.events | self.flags.bits();
        c_event
    }
}

/// Turning an event into its host form and back gives the same event, for every
/// event whose mask holds only known events.
pub proof fn lemma_event_c_roundtrip(e: EpollEventView)
    requires
        valid_io_events(e.mask),
    ensures
        event_from_c(event_to_c(e)) == e,
{
    events::lemma_truncate_valid_is_identity(e.mask);
}

/// Attributes whose mask and flags hold only known bits and whose mask holds the
/// default events.
pub open spec fn valid_attr(a: EpollAttrView) -> bool {
    &&& valid_io_events(a.event.mask)
    &&& valid_epoll_flags(a.flags)
    &&& a.event.mask & DEFAULT_EVENTS == DEFAULT_EVENTS
}

/// Turning attributes with known bits into their host form and back keeps the
/// user data, adds the default events, and keeps the mask and the flags, except
/// that `RDHUP` of the mask and `WAKE_UP` of the flags, which share a bit of the
/// host mask, each bring the other.
pub proof fn lemma_attr_c_roundtrip_general(a: EpollAttrView)
    requires
        valid_io_events(a.event.mask),
        valid_epoll_flags(a.flags),
    ensures
        attr_from_c(attr_to_c(a)) == attr_new(
            EpollEventView {
                mask: a.event.mask | (a.flags & events::RDHUP),
                user_data: a.event.user_data,
            },
            a.flags | (a.event.mask & WAKE_UP),
        ),
{
    let m = a.event.mask;
    let f = a.flags;
    assert((m | f) & 0x201fu32 == m | (f & 0x2000u32) && (m | f) & 0xf000u32 == f | (m & 0x2000u32))
        by (bit_vector)
        requires
            m & !0x201fu32 == 0,
            f & !0xf000u32 == 0,
    ;
}

/// Turning attributes into their host form and back gives the same attributes,
/// for every attributes whose mask and flags hold only known bits, whose mask
/// holds the default events, and that set `RDHUP` exactly when they set `WAKE_UP`
/// (the two share a bit of the host mask).
pub proof fn lemma_attr_c_roundtrip(a: EpollAttrView)
    requires
        valid_io_events(a.event.mask),
        valid_epoll_flags(a.flags),
        a.event.mask & DEFAULT_EVENTS == DEFAULT_EVENTS,
        (a.event.mask & events::RDHUP == 0) == (a.flags & WAKE_UP == 0),
    ensures
        attr_from_c(attr_to_c(a)) == a,
{
    let m = a.event.mask;
    let f = a.flags;
    assert(((m | f) & 0x201fu32) | 0x18u32 == m && (m | f) & 0xf000u32 == f) by (bit_vector)
        requires
            m & !0x201fu32 == 0,
            f & !0xf000u32 == 0,
            m & 0x18u32 == 0x18u32,
            (m & 0x2000u32 == 0) == (f & 0x2000u32 == 0),
    ;
}

/// The host form of the attributes read from a host event keeps the known events
/// and flags of that event, adds the default events, and keeps the user data.
pub proof fn lemma_attr_from_c_to_c(c: CEpollEvent)
    ensures
        attr_to_c(attr_from_c(c)) == (CEpollEvent {
            events: (c.events & (events::ALL | ALL_FLAGS)) | DEFAULT_EVENTS,
            u64: c.u64,
        }),
{
    let e = c.events;
    assert(((e & 0x201fu32) | 0x18u32) | (e & 0xf000u32) == (e & (0x201fu32 | 0xf000u32)) | 0x18u32)
        by (bit_vector);
}

/// Adding the default events twice is adding them once.
pub proof fn lemma_default_events_idempotent(e: EpollEventView)
    ensures
        with_default_events(with_default_events(e)) == with_default_events(e),
{
    let m = e.mask;
    assert((m | 0x18u32) | 0x18u32 == m | 0x18u32) by (bit_vector);
}

/// Attributes made by `new` or `from_c` report the default events, and a mask
/// made of known events stays so.
pub proof fn lemma_attr_new_reports_defaults(e: EpollEventView, flags: u32)
    ensures
        attr_new(e, flags).event.mask & DEFAULT_EVENTS == DEFAULT_EVENTS,
        valid_io_events(e.mask) ==> valid_io_events(attr_new(e, flags).event.mask),
{
    let m = e.mask;
    assert((m | 0x18u32) & 0x18u32 == 0x18u32) by (bit_vector);
    assert(m & !0x201fu32 == 0 ==> (m | 0x18u32) & !0x201fu32 == 0) by (bit_vector);
}


/// Adding the default events keeps every event of the mask, adds `ERR` and
/// `HUP`, adds nothing else, and keeps the user data; attributes made of an event
/// and flags keep the flags as given.
pub proof fn lemma_default_events_exact(e: EpollEventView, flags: u32)
    ensures
        with_default_events(e).mask & e.mask == e.mask,
        with_default_events(e).mask & events::ERR == events::ERR,
        with_default_events(e).mask & events::HUP == events::HUP,
        with_default_events(e).mask & !(e.mask | DEFAULT_EVENTS) == 0,
        with_default_events(e).user_data == e.user_data,
        attr_new(e, flags).event == with_default_events(e),
        attr_new(e, flags).flags == flags,
{
    let m = e.mask;
    assert((m | 0x18u32) & m == m) by (bit_vector);
    assert((m | 0x18u32) & 0x8u32 == 0x8u32) by (bit_vector);
    assert((m | 0x18u32) & 0x10u32 == 0x10u32) by (bit_vector);
    assert((m | 0x18u32) & !(m | 0x18u32) == 0) by (bit_vector);
}

/// Every event of a mask survives the host form of attributes and the reading
/// back: a mask read back holds every event that was set, with `ERR` and `HUP`.
pub proof fn lemma_attr_c_roundtrip_keeps_events(a: EpollAttrView)
    requires
        valid_io_events(a.event.mask),
        valid_epoll_flags(a.flags),
    ensures
        attr_from_c(attr_to_c(a)).event.mask & a.event.mask == a.event.mask,
        attr_from_c(attr_to_c(a)).event.mask & DEFAULT_EVENTS == DEFAULT_EVENTS,
        attr_from_c(attr_to_c(a)).flags & a.flags == a.flags,
        attr_from_c(attr_to_c(a)).event.user_data == a.event.user_data,
{
    let m = a.event.mask;
    let f = a.flags;
    assert((((m | f) & 0x201fu32) | 0x18u32) & m == m && (((m | f) & 0x201fu32) | 0x18u32) & 0x18u32
        == 0x18u32 && ((m | f) & 0xf000u32) & f == f) by (bit_vector)
        requires
            m & !0x201fu32 == 0,
            f & !0xf000u32 == 0,
    ;
}

} // verus!
