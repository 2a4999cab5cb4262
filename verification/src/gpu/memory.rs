//! A memory arena: one device allocation with an optional host window.
//!
//! The arena keeps the host's view of its bytes. Reads and writes are checked
//! against the arena's size before a single byte moves.

use vstd::prelude::*;

verus! {

/// Size value that asks for the range from an offset to the end of an arena.
pub const WHOLE_SIZE: u64 = 0xffff_ffff_ffff_ffff;

/// Why a host access to an arena was refused.
#[derive(Clone, Copy, Debug, PartialEq, Eq, Structural)]
pub enum MemoryError {
    /// The arena has no host window.
    Unmapped,
    /// `size + offset` exceeds the arena's size.
    OutOfBounds,
    /// The caller's bytes are fewer than `size`.
    ShortData,
}

/// Where a resource lives: an arena, named by its handle, and a byte offset.
#[derive(Clone, Copy, Debug, PartialEq, Eq, Structural)]
pub struct KewMemoryBinding {
    pub memory: u64,
    pub offset: u64,
}

/// The range of an arena that a mapping call exposes to the host.
#[derive(Clone, Copy, Debug, PartialEq, Eq, Structural)]
pub struct MapRange {
    pub memory: u64,
    pub offset: u64,
    pub b_size: u64,
}

impl MapRange {
    /// How many bytes of an arena of `arena_size` bytes the mapping exposes:
    /// those from the offset to the arena's end where the whole is asked
    /// for, else as many as asked for, and never more than the arena has.
    pub open spec fn span_of(&self, arena_size: u64) -> u64 {
        if self.b_size == WHOLE_SIZE {
            if self.offset <= arena_size {
                (arena_size - self.offset) as u64
            } else {
                0
            }
        } else if self.b_size <= arena_size {
            self.b_size
        } else {
            arena_size
        }
    }

    /// How many bytes of an arena of `arena_size` bytes the mapping exposes.
    pub fn span(&self, arena_size: u64) -> (r: u64)
        ensures
            r == self.span_of(arena_size),
            r <= arena_size,
    {
        if self.b_size == WHOLE_SIZE {
            if self.offset <= arena_size {
                arena_size - self.offset
            } else {
                0
            }
        } else if self.b_size <= arena_size {
            self.b_size
        } else {
            arena_size
        }
    }
}

/// What an arena is allocated from.
#[derive(Clone, Copy, Debug, PartialEq, Eq, Structural)]
pub struct MemoryAllocateInfo {
    pub allocation_size: u64,
    pub memory_type_index: u32,
}

/// One device allocation of `b_size` bytes of memory type `m_type`.
pub struct KewMemory {
    pub memory: u64,
    pub b_size: u64,
    pub m_type: u32,
    pub mapped: Option<Vec<u8>>,
}

/// The verdict on an access of `b_size` bytes at `offset`, made with
/// `data_len` caller bytes, to an arena of `arena_size` bytes.
pub open spec fn access_verdict(
    is_mapped: bool,
    arena_size: u64,
    data_len: nat,
    b_size: u64,
    offset: u64,
) -> Result<(), MemoryError> {
    if !is_mapped {
        Err(MemoryError::Unmapped)
    } else if b_size + offset > arena_size {
        Err(MemoryError::OutOfBounds)
    } else if data_len < b_size {
        Err(MemoryError::ShortData)
    } else {
        Ok(())
    }
}

/// `window` after the first `b_size` bytes of `data` were stored at `offset`.
pub open spec fn written(window: Seq<u8>, data: Seq<u8>, b_size: int, offset: int) -> Seq<u8> {
    window.subrange(0, offset) + data.subrange(0, b_size) + window.subrange(
        offset + b_size,
        window.len() as int,
    )
}

/// `data` after `b_size` bytes of `window`, taken at `offset`, replaced its
/// first `b_size` bytes.
pub open spec fn fetched(window: Seq<u8>, data: Seq<u8>, b_size: int, offset: int) -> Seq<u8> {
    window.subrange(offset, offset + b_size) + data.subrange(b_size, data.len() as int)
}

impl KewMemory {
    /// The host window, if the arena is mapped.
    pub open spec fn window(&self) -> Option<Seq<u8>> {
        match self.mapped {
            Some(w) => Some(w@),
            None => None,
        }
    }

    /// A mapped arena's window spans the whole arena.
    pub open spec fn wf(&self) -> bool {
        match self.mapped {
            Some(w) => w@.len() == self.b_size,
            None => true,
        }
    }

    /// The description of an allocation of `b_size` bytes of the memory type
    /// `memory_type`.
    pub fn allocate_info(b_size: u64, memory_type: u32) -> (r: MemoryAllocateInfo)
        ensures
            r == (MemoryAllocateInfo { allocation_size: b_size, memory_type_index: memory_type }),
    {
        MemoryAllocateInfo { allocation_size: b_size, memory_type_index: memory_type }
    }

    /// Records an allocation of `b_size` bytes made under the handle `memory`.
    pub fn new(memory: u64, b_size: u64, memory_type: u32) -> (r: Self)
        ensures
            r.wf(),
            r.memory == memory,
            r.b_size == b_size,
            r.m_type == memory_type,
            r.window().is_none(),
    {
        KewMemory { memory, b_size, m_type: memory_type, mapped: None }
    }

    /// Whether the arena has a host window.
    pub fn is_mapped(&self) -> (r: bool)
        ensures
            r == self.window().is_some(),
    {
        self.mapped.is_some()
    }

    /// Opens the host window, zero-filled, and returns the range to map on the
    /// device. On an arena that is already mapped nothing changes and nothing
    /// is returned.
    pub fn map(&mut self, b_size: u64, offset: u64) -> (r: Option<MapRange>)
        requires
            old(self).wf(),
            old(self).b_size <= usize::MAX,
        ensures
            final(self).wf(),
            final(self).memory == old(self).memory,
            final(self).b_size == old(self).b_size,
            final(self).m_type == old(self).m_type,
            final(self).window() == Some(
                window_once_mapped(old(self).window(), old(self).b_size),
            ),
            old(self).window().is_some() ==> r.is_none(),
            old(self).window().is_none() ==> r == Some(
                (MapRange { memory: old(self).memory, offset, b_size }),
            ),
    {
        if self.mapped.is_none() {
            let window: Vec<u8> = vec![0u8; self.b_size as usize];
            assert(window@ =~= Seq::new(self.b_size as nat, |i: int| 0u8));
            self.mapped = Some(window);
            Some(MapRange { memory: self.memory, offset, b_size })
        } else {
            None
        }
    }

    /// Closes the host window. Returns whether there was one to close.
    pub fn unmap(&mut self) -> (r: bool)
        requires
            old(self).wf(),
        ensures
            final(self).wf(),
            final(self).memory == old(self).memory,
            final(self).b_size == old(self).b_size,
            final(self).m_type == old(self).m_type,
            final(self).window().is_none(),
            r == old(self).window().is_some(),
    {
        if self.mapped.is_some() {
            self.mapped = None;
            true
        } else {
            false
        }
    }

    /// Copies `b_size` bytes of the window, from `offset` on, to the front of
    /// `data`. A refused read leaves `data` as it was.
    pub fn rd_visible_mem(&self, data: &mut Vec<u8>, b_size: u64, offset: u64) -> (r: Result<
        (),
        MemoryError,
    >)
        requires
            self.wf(),
        ensures
            r == access_verdict(
                self.window().is_some(),
                self.b_size,
                old(data)@.len(),
                b_size,
                offset,
            ),
            r.is_ok() ==> final(data)@ == fetched(
                self.window().unwrap(),
                old(data)@,
                b_size as int,
                offset as int,
            ),
            r.is_err() ==> final(data)@ == old(data)@,
    {
        if self.mapped.is_none() {
            return Err(MemoryError::Unmapped);
        }
        let window = self.mapped.as_ref().unwrap();
        let limit: usize = window.len();
        if b_size > self.b_size || offset > self.b_size - b_size {
            return Err(MemoryError::OutOfBounds);
        }
        assert(b_size + offset <= limit);
        let n: usize = b_size as usize;
        let base: usize = offset as usize;
        if data.len() < n {
            return Err(MemoryError::ShortData);
        }
        let mut i: usize = 0;
        while i < n
            invariant
                i <= n,
                base + n <= limit,
                limit == window@.len(),
                data@.len() == old(data)@.len(),
                n <= data@.len(),
                forall|k: int| 0 <= k < i ==> data@[k] == window@[base + k],
                forall|k: int| i <= k < data@.len() ==> data@[k] == old(data)@[k],
            decreases n - i,
        {
            data[i] = window[base + i];
            i += 1;
        }
        assert(data@ =~= fetched(window@, old(data)@, b_size as int, offset as int));
        Ok(())
    }

    /// Stores the first `b_size` bytes of `data` in the window at `offset`.
    /// A refused write leaves the arena as it was.
    pub fn wr_visible_mem(&mut self, data: &[u8], b_size: u64, offset: u64) -> (r: Result<
        (),
        MemoryError,
    >)
        requires
            old(self).wf(),
        ensures
            final(self).wf(),
            final(self).memory == old(self).memory,
            final(self).b_size == old(self).b_size,
            final(self).m_type == old(self).m_type,
            r == access_verdict(
                old(self).window().is_some(),
                old(self).b_size,
                data@.len(),
                b_size,
                offset,
            ),
            r.is_ok() ==> final(self).window() == Some(
                written(old(self).window().unwrap(), data@, b_size as int, offset as int),
            ),
            r.is_err() ==> final(self).window() == old(self).window(),
    {
        if self.mapped.is_none() {
            return Err(MemoryError::Unmapped);
        }
        let limit: usize = self.mapped.as_ref().unwrap().len();
        if b_size > self.b_size || offset > self.b_size - b_size {
            return Err(MemoryError::OutOfBounds);
        }
        assert(b_size + offset <= limit);
        let n: usize = b_size as usize;
        let base: usize = offset as usize;
        if data.len() < n {
            return Err(MemoryError::ShortData);
        }
        let mut window: Vec<u8> = self.mapped.take().unwrap();
        let ghost before = window@;
        let mut i: usize = 0;
        while i < n
            invariant
                i <= n,
                n <= data@.len(),
                window@.len() == before.len(),
                base + n <= limit,
                limit == window@.len(),
                forall|k: int| 0 <= k < base ==> window@[k] == before[k],
                forall|k: int| base <= k < base + i ==> window@[k] == data@[k - base],
                forall|k: int| base + i <= k < window@.len() ==> window@[k] == before[k],
            decreases n - i,
        {
            window[base + i] = data[i];
            i += 1;
        }
        assert(window@ =~= written(before, data@, b_size as int, offset as int));
        self.mapped = Some(window);
        Ok(())
    }
}

/// The window of an arena once it is mapped: the one it had, or a fresh
/// one of zeros.
pub open spec fn window_once_mapped(window: Option<Seq<u8>>, arena_size: u64) -> Seq<u8> {
    match window {
        Some(w) => w,
        None => Seq::new(arena_size as nat, |i: int| 0u8),
    }
}

/// The binding of a resource after a bind request: the one it had, or else
/// the requested one.
pub open spec fn bind_once(current: Option<KewMemoryBinding>, wanted: KewMemoryBinding) -> Option<
    KewMemoryBinding,
> {
    match current {
        Some(b) => Some(b),
        None => Some(wanted),
    }
}

/// A second bind changes nothing: whatever arena and offset it names, the
/// binding made by the first bind stands. The same holds of every later one.
pub proof fn lemma_bound_once(
    current: Option<KewMemoryBinding>,
    first: KewMemoryBinding,
    second: KewMemoryBinding,
)
    ensures
        bind_once(bind_once(None, first), second) == Some(first),
        bind_once(bind_once(current, first), second) == bind_once(current, first),
        current.is_some() ==> bind_once(current, first) == current,
{
}

/// Bytes stored in an arena are the bytes read back: a write of `b_size`
/// bytes at `offset` followed by a read of `b_size` bytes at the same offset
/// puts exactly the written bytes at the front of the reader's data.
pub proof fn lemma_write_then_read(
    window: Seq<u8>,
    pattern: Seq<u8>,
    sink: Seq<u8>,
    b_size: int,
    offset: int,
)
    requires
        0 <= b_size,
        0 <= offset,
        offset + b_size <= window.len(),
        b_size <= pattern.len(),
        b_size <= sink.len(),
    ensures
        written(window, pattern, b_size, offset).len() == window.len(),
        fetched(written(window, pattern, b_size, offset), sink, b_size, offset).subrange(
            0,
            b_size,
        ) == pattern.subrange(0, b_size),
        fetched(written(window, pattern, b_size, offset), sink, b_size, offset).subrange(
            b_size,
            sink.len() as int,
        ) == sink.subrange(b_size, sink.len() as int),
{
    let w = written(window, pattern, b_size, offset);
    let f = fetched(w, sink, b_size, offset);
    assert(f.subrange(0, b_size) =~= pattern.subrange(0, b_size));
    assert(f.subrange(b_size, sink.len() as int) =~= sink.subrange(b_size, sink.len() as int));
}

/// An access whose `size + offset` exceeds the arena's size is refused,
/// whatever the arena's size and whatever else holds of the request.
pub proof fn lemma_out_of_bounds_is_refused(
    is_mapped: bool,
    arena_size: u64,
    data_len: nat,
    b_size: u64,
    offset: u64,
)
    requires
        b_size + offset > arena_size,
    ensures
        access_verdict(is_mapped, arena_size, data_len, b_size, offset).is_err(),
        is_mapped ==> access_verdict(is_mapped, arena_size, data_len, b_size, offset) == Err::<
            (),
            MemoryError,
        >(MemoryError::OutOfBounds),
{
}

} // verus!
