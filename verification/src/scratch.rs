//! The scratch buffer between the network and the staging buffer: chunks of
//! the response are gathered until they would exceed the configured size,
//! and only then written on.

use vstd::prelude::*;
use vstd::slice::slice_to_vec;
use crate::audio_buffer::joined;

verus! {

/// The chunks of a download that wait to be written, and the count of the
/// bytes that have arrived.
#[derive(Debug)]
pub struct DownloadScratch {
    /// The bytes that have arrived and are not yet written on.
    pub buffer: Vec<u8>,
    /// The size that the gathered bytes may not exceed.
    pub chunk_size: usize,
    /// The bytes that have arrived so far.
    pub downloaded: u64,
}

/// The scratch size, in bytes, for a size configured in KiB, kept to what a
/// `usize` holds.
pub open spec fn scratch_bytes(chunk_size_kb: usize) -> nat {
    if chunk_size_kb * 1024 <= usize::MAX {
        (chunk_size_kb * 1024) as nat
    } else {
        usize::MAX as nat
    }
}

/// What is written on when `chunk` arrives while `held` bytes wait. Bytes
/// that still fit are only gathered. Otherwise the waiting bytes go first,
/// and the chunk follows them at once where it fills the scratch size alone.
pub open spec fn writes_for(held: Seq<u8>, chunk: Seq<u8>, chunk_size: nat) -> Seq<Seq<u8>> {
    if held.len() + chunk.len() <= chunk_size {
        Seq::empty()
    } else {
        (if held.len() > 0 {
            seq![held]
        } else {
            Seq::empty()
        }) + (if chunk.len() >= chunk_size {
            seq![chunk]
        } else {
            Seq::empty()
        })
    }
}

/// What waits after `chunk` arrived while `held` bytes waited.
pub open spec fn held_after(held: Seq<u8>, chunk: Seq<u8>, chunk_size: nat) -> Seq<u8> {
    if held.len() + chunk.len() <= chunk_size {
        held + chunk
    } else if chunk.len() >= chunk_size {
        Seq::empty()
    } else {
        chunk
    }
}

/// The views of a list of byte buffers.
pub open spec fn views(writes: Seq<Vec<u8>>) -> Seq<Seq<u8>> {
    writes.map_values(|write: Vec<u8>| write@)
}

impl DownloadScratch {
    /// An empty scratch buffer for the configured size.
    pub fn new(chunk_size_kb: usize) -> (scratch: Self)
        ensures
            scratch.buffer@ == Seq::<u8>::empty(),
            scratch.chunk_size == scratch_bytes(chunk_size_kb),
            scratch.downloaded == 0,
    {
        let chunk_size: usize = if chunk_size_kb > usize::MAX / 1024 {
            usize::MAX
        } else {
            chunk_size_kb * 1024
        };
        DownloadScratch { buffer: Vec::new(), chunk_size, downloaded: 0 }
    }

    /// Takes a chunk of the response and answers with the writes that are
    /// due, in their order. No byte is lost or doubled: the writes and what
    /// waits afterwards are, joined, what waited before and the chunk.
    pub fn push(&mut self, chunk: &[u8]) -> (writes: Vec<Vec<u8>>)
        ensures
            views(writes@) == writes_for(old(self).buffer@, chunk@, old(self).chunk_size as nat),
            final(self).buffer@ == held_after(
                old(self).buffer@,
                chunk@,
                old(self).chunk_size as nat,
            ),
            final(self).chunk_size == old(self).chunk_size,
            final(self).downloaded as int == (if old(self).downloaded + chunk@.len() <= u64::MAX {
                old(self).downloaded + chunk@.len()
            } else {
                u64::MAX as int
            }),
            joined(views(writes@)) + final(self).buffer@ == old(self).buffer@ + chunk@,
    {
        let arrived: u64 = chunk.len() as u64;
        self.downloaded = self.downloaded.saturating_add(arrived);
        let mut writes: Vec<Vec<u8>> = Vec::new();
        let fits = chunk.len() <= self.chunk_size && self.buffer.len() <= self.chunk_size
            - chunk.len();
        if fits {
            self.buffer.extend_from_slice(chunk);
            assert(self.buffer@ =~= old(self).buffer@ + chunk@);
            assert(views(writes@) =~= Seq::<Seq<u8>>::empty());
            assert(joined(views(writes@)) + self.buffer@ =~= old(self).buffer@ + chunk@);
        } else {
            if self.buffer.len() > 0 {
                let mut waiting: Vec<u8> = Vec::with_capacity(self.chunk_size);
                std::mem::swap(&mut waiting, &mut self.buffer);
                writes.push(waiting);
            }
            if chunk.len() >= self.chunk_size {
                writes.push(slice_to_vec(chunk));
            } else {
                self.buffer.extend_from_slice(chunk);
            }
            assert(self.buffer@ =~= held_after(
                old(self).buffer@,
                chunk@,
                old(self).chunk_size as nat,
            ));
            assert(views(writes@) =~= writes_for(
                old(self).buffer@,
                chunk@,
                old(self).chunk_size as nat,
            ));
            proof {
                lemma_writes_keep_bytes(old(self).buffer@, chunk@, old(self).chunk_size as nat);
            }
        }
        writes
    }

    /// Ends the download and answers with the bytes that still wait, if any.
    pub fn finish(&mut self) -> (rest: Option<Vec<u8>>)
        ensures
            final(self).buffer@ == Seq::<u8>::empty(),
            final(self).chunk_size == old(self).chunk_size,
            final(self).downloaded == old(self).downloaded,
            old(self).buffer@.len() == 0 <==> rest is None,
            rest matches Some(bytes) ==> bytes@ == old(self).buffer@,
    {
        if self.buffer.len() == 0 {
            None
        } else {
            let mut waiting: Vec<u8> = Vec::new();
            std::mem::swap(&mut waiting, &mut self.buffer);
            Some(waiting)
        }
    }
}

/// The writes that a chunk sets off, and what waits after it, are together
/// the bytes that waited and the chunk, in their order.
pub proof fn lemma_writes_keep_bytes(held: Seq<u8>, chunk: Seq<u8>, chunk_size: nat)
    ensures
        joined(writes_for(held, chunk, chunk_size)) + held_after(held, chunk, chunk_size) == held
            + chunk,
{
    let writes = writes_for(held, chunk, chunk_size);
    reveal_with_fuel(joined, 3);
    if held.len() + chunk.len() <= chunk_size {
        assert(joined(writes) + held_after(held, chunk, chunk_size) =~= held + chunk);
    } else if held.len() > 0 && chunk.len() >= chunk_size {
        assert(writes =~= seq![held, chunk]);
        assert(writes.drop_first() =~= seq![chunk]);
        assert(writes.drop_first().drop_first() =~= Seq::<Seq<u8>>::empty());
        assert(joined(writes) =~= held + chunk);
        assert(joined(writes) + held_after(held, chunk, chunk_size) =~= held + chunk);
    } else if held.len() > 0 {
        assert(writes =~= seq![held]);
        assert(writes.drop_first() =~= Seq::<Seq<u8>>::empty());
        assert(joined(writes) =~= held);
    } else if chunk.len() >= chunk_size {
        assert(writes =~= seq![chunk]);
        assert(writes.drop_first() =~= Seq::<Seq<u8>>::empty());
        assert(joined(writes) =~= chunk);
        assert(joined(writes) + held_after(held, chunk, chunk_size) =~= held + chunk);
    } else {
        assert(writes =~= Seq::<Seq<u8>>::empty());
        assert(joined(writes) + held_after(held, chunk, chunk_size) =~= held + chunk);
    }
}

} // verus!
