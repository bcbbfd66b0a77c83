use std::collections::{HashMap, VecDeque};
use std::sync::Arc;

use vstd::prelude::*;

use super::host_file_epoller::HostFileEpoller;
use super::{EpollAttr, EpollAttrView};

verus! {

/// A file that provides epoll API.
///
/// Its operations (`ctl`, `wait` and the ready list) are not implemented yet;
/// the type holds the state that they share.
#[allow(dead_code)]
#[derive(Debug)]
pub struct EpollFile<F> {
    /// All interesting entries.
    interest: HashMap<u32, Arc<EpollEntry<F>>>,
    /// Entries that are probably ready (having events happened)
    ready: VecDeque<Arc<EpollEntry<F>>>,
    host_file_epoller: HostFileEpoller<F>,
}

/// An entry of the interest list of an `EpollFile`: the watched fd, its file and
/// its attributes.
#[derive(Debug)]
pub struct EpollEntry<F> {
    fd: u32,
    file: F,
    attr: EpollAttr,
    // Whether the entry is in the ready list
    is_ready: bool,
    // Whether the entry has been deleted from the interest list
    is_deleted: bool,
}

impl<F> EpollEntry<F> {
    pub closed spec fn fd(&self) -> u32 {
        self.fd
    }

    pub closed spec fn file(&self) -> F {
        self.file
    }

    pub closed spec fn attr(&self) -> EpollAttrView {
        self.attr@
    }

    pub closed spec fn is_ready(&self) -> bool {
        self.is_ready
    }

    pub closed spec fn is_deleted(&self) -> bool {
        self.is_deleted
    }

    /// A new entry, neither in the ready list nor deleted.
    pub fn new(fd: u32, file: F, attr: EpollAttr) -> (r: EpollEntry<F>)
        ensures
            r.fd() == fd,
            r.file() == file,
            r.attr() == attr@,
            !r.is_ready(),
            !r.is_deleted(),
    {
        let is_ready = false;
        let is_deleted = false;
        EpollEntry { fd, file, attr, is_ready, is_deleted }
    }
}

} // verus!
