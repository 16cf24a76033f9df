//! Audit records and the bounded copy of a pathname into a record's
//! fixed-capacity path buffer.

use vstd::prelude::*;

verus! {

/// Capacity of an audit record's path buffer, in bytes.
pub const PATH_CAP: usize = 4096;

/// One audit record: the executable's pathname (truncated and terminated if
/// longer than the buffer), the invoking process's identifiers, and the
/// verdict. Immutable once published.
#[derive(Debug)]
pub struct SuidEvent {
    pub path: Vec<u8>,
    pub uid: u32,
    pub gid: u32,
    pub denied: bool,
}

impl SuidEvent {
    /// The path buffer always holds exactly `PATH_CAP` bytes.
    pub open spec fn wf(&self) -> bool {
        self.path@.len() == PATH_CAP
    }

    /// A blank record: zeroed path buffer, identifiers 0, not denied.
    pub fn empty() -> (ev: SuidEvent)
        ensures
            ev.wf(),
            ev.path@ == Seq::<u8>::new(PATH_CAP as nat, |i: int| 0u8),
            ev.uid == 0,
            ev.gid == 0,
            !ev.denied,
    {
        let mut path: Vec<u8> = Vec::new();
        let mut i: usize = 0;
        while i < PATH_CAP
            invariant
                0 <= i <= PATH_CAP,
                path@.len() == i,
                forall|k: int| 0 <= k < i ==> path@[k] == 0u8,
            decreases PATH_CAP - i,
        {
            path.push(0u8);
            i = i + 1;
        }
        proof {
            assert(path@ =~= Seq::<u8>::new(PATH_CAP as nat, |i: int| 0u8));
        }
        SuidEvent { path, uid: 0, gid: 0, denied: false }
    }
}

/// What the path buffer holds after a bounded copy of `src` into a buffer
/// whose previous contents were `prev`: at most `PATH_CAP - 1` source bytes,
/// a terminator right after them, and the previous bytes beyond that point
/// (the buffer is terminated, not cleared).
pub open spec fn spec_stored_path(prev: Seq<u8>, src: Seq<u8>) -> Seq<u8>
    recommends
        prev.len() == PATH_CAP,
{
    let n = if src.len() < (PATH_CAP - 1) as nat {
        src.len() as int
    } else {
        PATH_CAP - 1
    };
    Seq::<u8>::new(
        PATH_CAP as nat,
        |i: int|
            if i < n {
                src[i]
            } else if i == n {
                0u8
            } else {
                prev[i]
            },
    )
}

/// Copy `src` into the fixed-capacity buffer `path`, never writing past its
/// end: at most `PATH_CAP - 1` bytes of content, then a terminator.
pub fn store_path(path: &mut Vec<u8>, src: &Vec<u8>)
    requires
        old(path)@.len() == PATH_CAP,
    ensures
        final(path)@ == spec_stored_path(old(path)@, src@),
{
    let n: usize = if src.len() < PATH_CAP - 1 {
        src.len()
    } else {
        PATH_CAP - 1
    };
    let mut i: usize = 0;
    while i < n
        invariant
            0 <= i <= n,
            n <= src@.len(),
            n <= PATH_CAP - 1,
            path@.len() == PATH_CAP,
            forall|k: int| 0 <= k < i ==> path@[k] == src@[k],
            forall|k: int| i <= k < PATH_CAP ==> path@[k] == old(path)@[k],
        decreases n - i,
    {
        path.set(i, src[i]);
        i = i + 1;
    }
    path.set(n, 0u8);
    proof {
        assert(path@ =~= spec_stored_path(old(path)@, src@));
    }
}

/// Path truncation: a source pathname at least as long as the buffer leaves
/// exactly `PATH_CAP - 1` bytes of content and a terminator at the final
/// byte, and nothing outside the buffer is touched (the result has exactly
/// `PATH_CAP` bytes).
pub proof fn lemma_path_truncation(prev: Seq<u8>, src: Seq<u8>)
    requires
        prev.len() == PATH_CAP,
        src.len() >= PATH_CAP,
    ensures
        spec_stored_path(prev, src).len() == PATH_CAP,
        forall|i: int|
            0 <= i < PATH_CAP - 1 ==> spec_stored_path(prev, src)[i] == src[i],
        spec_stored_path(prev, src)[PATH_CAP - 1] == 0u8,
{
}

} // verus!
