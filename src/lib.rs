//! A wait group: threads hold handles to one shared count and can block until
//! every handle of the group has been released.

pub mod counter;
pub mod lock;
mod wait_group;

pub use counter::{count_after_duplicate, count_after_release, must_block, Step};
pub use wait_group::WaitGroup;
