//! Host-file registry, path helpers and the epoll bookkeeping of a library OS,
//! with their contracts proved by Verus.

pub mod epoll;
pub mod error;
pub mod fs;
