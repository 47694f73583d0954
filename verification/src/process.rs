use vstd::prelude::*;

verus! {

/// The backend process as the supervisor sees it: the OS-assigned process
/// identifier, captured at spawn time. The kill and wait capabilities stay
/// with the embedding shell, which keeps the real child object beside this
/// handle and drives it when the supervisor hands the handle back at
/// teardown.
#[derive(Clone, Copy, PartialEq, Eq, Structural, Debug)]
pub struct ProcessHandle {
    pub pid: u32,
}

} // verus!
