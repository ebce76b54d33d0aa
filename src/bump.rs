//! `StaticBumpAllocator`: hands out page-sized byte ranges of one fixed
//! buffer by advancing a cursor, and never takes them back.

use vstd::prelude::*;

verus! {

/// Bytes in one page: a WebAssembly memory page.
pub const PAGE_BYTES: usize = 65536;

/// Length of the scratch buffer that `with_scratch_buffer` makes: 32 MiB.
pub const SCRATCH_LEN_BYTES: usize = 1024 * 1024 * 32;

/// The request cannot be met from what is left of the buffer.
#[derive(Debug, Clone, Copy, PartialEq, Eq, Structural)]
pub struct AllocError;

/// Two byte ranges, each given as `(base, length)`, share no byte.
pub open spec fn disjoint(a: (nat, nat), b: (nat, nat)) -> bool {
    a.0 + a.1 <= b.0 || b.0 + b.1 <= a.0
}

/// Bytes in `pages` pages.
pub open spec fn page_bytes(pages: nat) -> nat {
    pages * (PAGE_BYTES as nat)
}

/// Relies on memory_units: `Bytes::from(wasm32::Pages(n))` is
/// `Bytes(n * 65536)`; the product must fit in `usize`.
#[verifier::external_body]
fn pages_to_bytes(pages: usize) -> (r: usize)
    requires
        pages * PAGE_BYTES <= usize::MAX,
    ensures
        r == page_bytes(pages as nat),
{
    memory_units::Bytes::from(memory_units::wasm32::Pages(pages)).0
}

/// A bump allocator over one owned buffer.
///
/// The cursor marks the end of what has been handed out; every grant starts
/// at the cursor and moves it forward. `grants` records, for the proofs,
/// each range handed out so far as `(base, length)`, oldest first.
pub struct StaticBumpAllocator {
    buffer: Vec<u8>,
    cursor: usize,
    lock: spin::Mutex<()>,
    grants: Ghost<Seq<(nat, nat)>>,
}

impl StaticBumpAllocator {
    /// Length of the backing buffer.
    pub closed spec fn buffer_length(&self) -> nat {
        self.buffer@.len()
    }

    /// Offset of the first byte not yet handed out.
    pub closed spec fn cursor_spec(&self) -> nat {
        self.cursor as nat
    }

    /// Every range handed out so far, as `(base, length)`, oldest first.
    pub closed spec fn grants(&self) -> Seq<(nat, nat)> {
        self.grants@
    }

    /// Well-formed: the cursor lies within the buffer, and strictly inside it
    /// once anything was granted; the grants come in increasing order, each
    /// ending at or before the next one's base, and all end at or before the
    /// cursor.
    pub closed spec fn wf(&self) -> bool {
        &&& self.cursor <= self.buffer@.len()
        &&& self.grants@.len() > 0 ==> self.cursor < self.buffer@.len()
        &&& forall|i: int|
            0 <= i < self.grants@.len() ==> #[trigger] self.grants@[i].0 + self.grants@[i].1
                <= self.cursor
        &&& forall|i: int, j: int|
            0 <= i < j < self.grants@.len() ==> #[trigger] self.grants@[i].0
                + self.grants@[i].1 <= #[trigger] self.grants@[j].0
    }

    /// An allocator over `buffer`, with nothing handed out yet.
    pub fn new(buffer: Vec<u8>) -> (r: Self)
        ensures
            r.wf(),
            r.buffer_length() == buffer@.len(),
            r.cursor_spec() == 0,
            r.grants() == Seq::<(nat, nat)>::empty(),
    {
        StaticBumpAllocator {
            buffer,
            cursor: 0,
            lock: spin::Mutex::new(()),
            grants: Ghost(Seq::empty()),
        }
    }

    /// An allocator over a zeroed buffer of `SCRATCH_LEN_BYTES` bytes.
    pub fn with_scratch_buffer() -> (r: Self)
        ensures
            r.wf(),
            r.buffer_length() == SCRATCH_LEN_BYTES,
            r.cursor_spec() == 0,
            r.grants() == Seq::<(nat, nat)>::empty(),
    {
        StaticBumpAllocator::new(vec![0u8; SCRATCH_LEN_BYTES])
    }

    /// Length of the backing buffer.
    pub fn buffer_len(&self) -> (r: usize)
        ensures
            r == self.buffer_length(),
    {
        self.buffer.len()
    }

    /// Offset of the first byte not yet handed out.
    pub fn cursor(&self) -> (r: usize)
        ensures
            r == self.cursor_spec(),
    {
        self.cursor
    }

    /// Grants `bytes` bytes at the cursor if the range ends strictly before
    /// the end of the buffer, and returns its base offset; else fails and
    /// changes nothing.
    pub fn allocate_bytes(&mut self, bytes: usize) -> (r: Result<usize, AllocError>)
        requires
            old(self).wf(),
        ensures
            final(self).wf(),
            final(self).buffer_length() == old(self).buffer_length(),
            final(self).cursor_spec() >= old(self).cursor_spec(),
            r is Ok <==> old(self).cursor_spec() + bytes < old(self).buffer_length(),
            r matches Ok(base) ==> {
                &&& base == old(self).cursor_spec()
                &&& final(self).cursor_spec() == old(self).cursor_spec() + bytes
                &&& final(self).grants() == old(self).grants().push((base as nat, bytes as nat))
            },
            r is Err ==> *final(self) == *old(self),
    {
        let _guard = self.lock.lock();
        let len = self.buffer.len();
        if bytes < len - self.cursor {
            let base = self.cursor;
            self.cursor = base + bytes;
            proof {
                self.grants = Ghost(self.grants@.push((base as nat, bytes as nat)));
            }
            Ok(base)
        } else {
            Err(AllocError)
        }
    }

    /// Grants `page_count` whole pages at the cursor if they end strictly
    /// before the end of the buffer, and returns their base offset; else
    /// fails and changes nothing.
    pub fn allocate_pages(&mut self, page_count: usize) -> (r: Result<usize, AllocError>)
        requires
            old(self).wf(),
        ensures
            final(self).wf(),
            final(self).buffer_length() == old(self).buffer_length(),
            final(self).cursor_spec() >= old(self).cursor_spec(),
            r is Ok <==> old(self).cursor_spec() + page_bytes(page_count as nat)
                < old(self).buffer_length(),
            r matches Ok(base) ==> {
                &&& base == old(self).cursor_spec()
                &&& final(self).cursor_spec() == old(self).cursor_spec() + page_bytes(
                    page_count as nat,
                )
                &&& final(self).grants() == old(self).grants().push(
                    (base as nat, page_bytes(page_count as nat)),
                )
            },
            r is Err ==> *final(self) == *old(self),
    {
        if page_count > usize::MAX / PAGE_BYTES {
            // No buffer is that long: its length is a `usize`.
            let len = self.buffer.len();
            proof {
                assert(page_count * PAGE_BYTES > len) by (nonlinear_arith)
                    requires
                        page_count > usize::MAX / PAGE_BYTES,
                        PAGE_BYTES == 65536,
                        len <= usize::MAX,
                ;
            }
            return Err(AllocError);
        }
        proof {
            assert(page_count * PAGE_BYTES <= usize::MAX) by (nonlinear_arith)
                requires
                    page_count <= usize::MAX / PAGE_BYTES,
                    PAGE_BYTES == 65536,
            ;
        }
        let bytes = pages_to_bytes(page_count);
        self.allocate_bytes(bytes)
    }
}

/// Every two ranges that an allocator has handed out share no byte, and each
/// lies inside the buffer, ending strictly before its last byte.
pub proof fn lemma_grants_disjoint(a: &StaticBumpAllocator, i: int, j: int)
    requires
        a.wf(),
        0 <= i < a.grants().len(),
        0 <= j < a.grants().len(),
        i != j,
    ensures
        disjoint(a.grants()[i], a.grants()[j]),
        a.grants()[i].0 + a.grants()[i].1 < a.buffer_length(),
{
    if i < j {
        assert(a.grants@[i].0 + a.grants@[i].1 <= a.grants@[j].0);
    } else {
        assert(a.grants@[j].0 + a.grants@[j].1 <= a.grants@[i].0);
    }
    assert(a.grants@[i].0 + a.grants@[i].1 <= a.cursor);
}

} // verus!
