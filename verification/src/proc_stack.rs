use vstd::prelude::*;

verus! {

/// Plain metadata attached to one lightweight process: an identity and an
/// optional placement hint.  It has no behaviour of its own; it is stored
/// inline in the process allocation and read back by diagnostics and
/// placement code.
#[derive(Clone, Copy, Debug)]
pub struct ProcStack {
    /// Identifier of the process, chosen by the spawner.
    pub pid: u64,
    /// Optional priority/affinity tag consulted by placement code.
    pub affinity: Option<u64>,
}

impl ProcStack {
    /// Metadata with the given identifier and no placement hint.
    pub fn new(pid: u64) -> (r: ProcStack)
        ensures
            r.pid == pid,
            r.affinity is None,
    {
        ProcStack { pid, affinity: None }
    }

    /// The same metadata with a placement hint attached.
    pub fn with_affinity(self, core: u64) -> (r: ProcStack)
        ensures
            r.pid == self.pid,
            r.affinity == Some(core),
    {
        ProcStack { pid: self.pid, affinity: Some(core) }
    }
}

} // verus!
