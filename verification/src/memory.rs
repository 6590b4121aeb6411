//! The paged byte memory: a stack page and a heap page behind one flat
//! address space.  Addresses below `HEAP_BASE` select the stack page;
//! addresses at or above it select the heap page at `address -
//! HEAP_BASE`.  A prefix of the heap can be reserved for globals.

use vstd::prelude::*;

use crate::bytes::{le_to_nat, nat_to_le};
use crate::primary::Primary;
use crate::UWord;

verus! {

/// The flat address at which the heap page begins.
pub const HEAP_BASE: UWord = 0x1_0000;

/// The default limit of the stack page.
pub const DEFAULT_STACK_LIMIT: usize = 0x400;

/// The default limit of the heap page.
pub const DEFAULT_HEAP_LIMIT: usize = 0x1_0000;

/// What a memory operation can fail with.
#[derive(Copy, Clone, Debug, Eq, PartialEq)]
pub enum MemoryError {
    /// Growing the named page would pass its limit.
    PageOverflow(&'static str),
    /// The named page is smaller than the requested shrink.
    RageUnderflow(&'static str),
    /// The range `(address, size)` is not fully inside its page.
    SegmentationFault(UWord, UWord),
    /// The end of the source range wraps below its start.
    WrongRange,
    /// Globals were reserved on a heap already in use.
    HeapAlreadyUsed,
}

/// `page` with `data` written at `off`; everything else is kept.
pub open spec fn store_bytes(page: Seq<u8>, off: int, data: Seq<u8>) -> Seq<u8> {
    Seq::new(page.len(), |i: int| if off <= i < off + data.len() { data[i - off] } else { page[i] })
}

/// Whether `[off, off + size)` lies inside a page of length `len`.
pub open spec fn range_ok(off: int, size: int, len: int) -> bool {
    off + size <= len
}

/// How `expand` leaves a page's bytes and what it returns.
pub open spec fn spec_expand(page: Seq<u8>, limit: usize, name: &'static str, size: UWord) -> (
    Seq<u8>,
    Result<(), MemoryError>,
) {
    if page.len() + size <= limit {
        (page + Seq::new(size as nat, |i: int| 0u8), Ok(()))
    } else {
        (page, Err(MemoryError::PageOverflow(name)))
    }
}

/// How `narrow` leaves a page's bytes and what it returns.
pub open spec fn spec_narrow(page: Seq<u8>, name: &'static str, size: UWord) -> (
    Seq<u8>,
    Result<(), MemoryError>,
) {
    if size <= page.len() {
        (page.take(page.len() - size), Ok(()))
    } else {
        (page, Err(MemoryError::RageUnderflow(name)))
    }
}

/// How `memmove` leaves a page's bytes and what it returns.
pub open spec fn spec_memmove(page: Seq<u8>, dest: UWord, src: UWord, size: UWord) -> (
    Seq<u8>,
    Result<(), MemoryError>,
) {
    if src + size > UWord::MAX {
        (page, Err(MemoryError::WrongRange))
    } else if !range_ok(src as int, size as int, page.len() as int) {
        (page, Err(MemoryError::SegmentationFault(src, size)))
    } else if !range_ok(dest as int, size as int, page.len() as int) {
        (page, Err(MemoryError::SegmentationFault(dest, size)))
    } else {
        (store_bytes(page, dest as int, page.subrange(src as int, src as int + size as int)), Ok(()))
    }
}

/// A fresh copy of a byte slice.
fn clone_bytes(src: &[u8]) -> (r: Vec<u8>)
    ensures
        r@ == src@,
{
    let n = src.len();
    let mut r: Vec<u8> = Vec::new();
    let mut i: usize = 0;
    while i < n
        invariant
            i <= n == src@.len(),
            r@ =~= src@.take(i as int),
        decreases n - i,
    {
        let b = src[i];
        r.push(b);
        i = i + 1;
        proof {
            assert(r@ =~= src@.take(i as int));
        }
    }
    proof {
        assert(src@.take(n as int) =~= src@);
    }
    r
}

/// One growable byte page with a fixed upper limit.
pub struct MemoryPage {
    page: Vec<u8>,
    limit: usize,
    name: &'static str,
}

impl View for MemoryPage {
    type V = Seq<u8>;

    closed spec fn view(&self) -> Seq<u8> {
        self.page@
    }
}

impl MemoryPage {
    pub closed spec fn inv(self) -> bool {
        self.page@.len() <= self.limit && self.limit <= u32::MAX
    }

    /// The page's limit in bytes.
    pub closed spec fn spec_limit(self) -> usize {
        self.limit
    }

    /// The page's name, carried into its errors.
    pub closed spec fn spec_name(self) -> &'static str {
        self.name
    }

    /// An empty page.
    pub fn new(limit: usize, name: &'static str) -> (r: Self)
        requires
            limit <= u32::MAX,
        ensures
            r@ =~= Seq::<u8>::empty(),
            r.spec_limit() == limit,
            r.spec_name() == name,
            r.inv(),
    {
        Self { page: Vec::new(), limit, name }
    }

    /// Extends the page by `size` zero bytes, within the limit.
    pub fn expand(&mut self, size: UWord) -> (r: Result<(), MemoryError>)
        requires
            old(self).inv(),
        ensures
            final(self).inv(),
            (final(self)@, r) == spec_expand(
                old(self)@,
                old(self).spec_limit(),
                old(self).spec_name(),
                size,
            ),
            final(self).spec_limit() == old(self).spec_limit(),
            final(self).spec_name() == old(self).spec_name(),
    {
        let new_len = match self.page.len().checked_add(size as usize) {
            Some(len) => len,
            None => {
                return Err(MemoryError::PageOverflow(self.name));
            },
        };
        if new_len <= self.limit {
            let len = new_len;
            {
                let ghost old_page = self.page@;
                let mut p = clone_bytes(self.page.as_slice());
                let mut i = p.len();
                while i < len
                    invariant
                        old_page.len() <= i <= len,
                        i == p@.len(),
                        p@ =~= old_page + Seq::new((i - old_page.len()) as nat, |j: int| 0u8),
                    decreases len - i,
                {
                    p.push(0);
                    i = i + 1;
                    proof {
                        assert(p@ =~= old_page + Seq::new(
                            (i - old_page.len()) as nat,
                            |j: int| 0u8,
                        ));
                    }
                }
                self.page = p;
                proof {
                    let (p2, r2) = spec_expand(
                        old(self)@,
                        old(self).spec_limit(),
                        old(self).spec_name(),
                        size,
                    );
                    assert(self@ =~= p2);
                }
                Ok(())
            }
        } else {
            Err(MemoryError::PageOverflow(self.name))
        }
    }

    /// Shrinks the page by `size` bytes.
    pub fn narrow(&mut self, size: UWord) -> (r: Result<(), MemoryError>)
        requires
            old(self).inv(),
        ensures
            final(self).inv(),
            (final(self)@, r) == spec_narrow(old(self)@, old(self).spec_name(), size),
            final(self).spec_limit() == old(self).spec_limit(),
            final(self).spec_name() == old(self).spec_name(),
    {
        if (size as usize) <= self.page.len() {
            let len = self.page.len() - size as usize;
            let ghost old_page = self.page@;
            let mut p = clone_bytes(self.page.as_slice());
            p.truncate(len);
            self.page = p;
            proof {
                assert(self.page@ =~= old_page.take(old_page.len() - size));
            }
            Ok(())
        } else {
            Err(MemoryError::RageUnderflow(self.name))
        }
    }

    /// The page's length in bytes.
    pub fn len(&self) -> (r: UWord)
        requires
            self.inv(),
        ensures
            r as nat == self@.len(),
    {
        self.page.len() as UWord
    }

    /// The page's bytes.
    pub fn as_slice(&self) -> (r: &[u8])
        ensures
            r@ == self@,
    {
        self.page.as_slice()
    }

    /// The byte range `[ptr, ptr + size)`, if it is inside the page.
    pub fn get(&self, ptr: UWord, size: UWord) -> (r: Result<&[u8], MemoryError>)
        ensures
            range_ok(ptr as int, size as int, self@.len() as int) ==> (r matches Ok(s) && s@
                == self@.subrange(ptr as int, ptr as int + size as int)),
            !range_ok(ptr as int, size as int, self@.len() as int) ==> r == Err::<
                &[u8],
                MemoryError,
            >(MemoryError::SegmentationFault(ptr, size)),
    {
        let len = self.page.len();
        if (ptr as usize) <= len && (size as usize) <= len - ptr as usize {
            Ok(
                vstd::slice::slice_subrange(
                    self.page.as_slice(),
                    ptr as usize,
                    ptr as usize + size as usize,
                ),
            )
        } else {
            Err(MemoryError::SegmentationFault(ptr, size))
        }
    }

    /// Writes `data` at `ptr`, if the range is inside the page.
    pub fn set_range(&mut self, ptr: UWord, data: &[u8]) -> (r: Result<(), MemoryError>)
        requires
            data@.len() <= u32::MAX,
        ensures
            old(self).inv() ==> final(self).inv(),
            range_ok(ptr as int, data@.len() as int, old(self)@.len() as int) ==> (r == Ok::<
                (),
                MemoryError,
            >(()) && final(self)@ == store_bytes(old(self)@, ptr as int, data@)),
            !range_ok(ptr as int, data@.len() as int, old(self)@.len() as int) ==> (r == Err::<
                (),
                MemoryError,
            >(MemoryError::SegmentationFault(ptr, data@.len() as UWord)) && final(self)@ == old(self)@),
            final(self).spec_limit() == old(self).spec_limit(),
            final(self).spec_name() == old(self).spec_name(),
    {
        let len = self.page.len();
        let n = data.len();
        if (ptr as usize) <= len && n <= len - ptr as usize {
            let mut p = clone_bytes(self.page.as_slice());
            let plen = p.len();
            let mut i: usize = 0;
            while i < n
                invariant
                    i <= n == data@.len(),
                    ptr + n <= p@.len(),
                    plen == p@.len(),
                    p@.len() == old(self).page@.len(),
                    p@ =~= store_bytes(old(self).page@, ptr as int, data@.take(i as int)),
                decreases n - i,
            {
                let b = data[i];
                p.set(ptr as usize + i, b);
                i = i + 1;
                proof {
                    assert(p@ =~= store_bytes(old(self).page@, ptr as int, data@.take(i as int)));
                }
            }
            self.page = p;
            proof {
                assert(data@.take(n as int) =~= data@);
            }
            Ok(())
        } else {
            Err(MemoryError::SegmentationFault(ptr, n as UWord))
        }
    }

    /// An overlap-safe copy of `size` bytes from `src` to `dest` within
    /// this page.
    pub fn memmove(&mut self, dest: UWord, src: UWord, size: UWord) -> (r: Result<(), MemoryError>)
        ensures
            old(self).inv() ==> final(self).inv(),
            (final(self)@, r) == spec_memmove(old(self)@, dest, src, size),
            final(self).spec_limit() == old(self).spec_limit(),
            final(self).spec_name() == old(self).spec_name(),
    {
        match src.checked_add(size) {
            None => Err(MemoryError::WrongRange),
            Some(_) => {
                let snapshot = match self.get(src, size) {
                    Ok(s) => clone_bytes(s),
                    Err(e) => {
                        return Err(e);
                    },
                };
                self.set_range(dest, snapshot.as_slice())
            },
        }
    }
}

/// The mathematical content of a `Memory`: the two pages' bytes and
/// the global reservation mark.
#[verifier::ext_equal]
pub struct MemView {
    pub stack: Seq<u8>,
    pub heap: Seq<u8>,
    pub global_base: UWord,
    pub stack_limit: usize,
    pub heap_limit: usize,
    pub stack_name: &'static str,
    pub heap_name: &'static str,
}

impl MemView {
    /// Whether the flat address selects the stack page.
    pub open spec fn on_stack(ptr: UWord) -> bool {
        ptr < HEAP_BASE
    }

    /// The offset of a flat address within its page.
    pub open spec fn page_offset(ptr: UWord) -> int {
        if Self::on_stack(ptr) {
            ptr as int
        } else {
            ptr - HEAP_BASE
        }
    }

    /// The bytes of the page a flat address selects.
    pub open spec fn page_at(self, ptr: UWord) -> Seq<u8> {
        if Self::on_stack(ptr) {
            self.stack
        } else {
            self.heap
        }
    }

    /// `self` with the page selected by `ptr` replaced.
    pub open spec fn with_page_at(self, ptr: UWord, page: Seq<u8>) -> MemView {
        if Self::on_stack(ptr) {
            MemView { stack: page, ..self }
        } else {
            MemView { heap: page, ..self }
        }
    }

    /// How reading `size` bytes at the flat address `ptr` goes.
    pub open spec fn read(self, ptr: UWord, size: nat) -> Result<Seq<u8>, MemoryError> {
        let off = Self::page_offset(ptr);
        let page = self.page_at(ptr);
        if range_ok(off, size as int, page.len() as int) {
            Ok(page.subrange(off, off + size))
        } else {
            Err(MemoryError::SegmentationFault(off as UWord, size as UWord))
        }
    }

    /// How writing `data` at the flat address `ptr` goes.
    pub open spec fn write(self, ptr: UWord, data: Seq<u8>) -> (MemView, Result<(), MemoryError>) {
        let off = Self::page_offset(ptr);
        let page = self.page_at(ptr);
        if range_ok(off, data.len() as int, page.len() as int) {
            (self.with_page_at(ptr, store_bytes(page, off, data)), Ok(()))
        } else {
            (self, Err(MemoryError::SegmentationFault(off as UWord, data.len() as UWord)))
        }
    }

    /// How a typed value is read at `ptr`.
    pub open spec fn get_val<T: Primary>(self, ptr: UWord) -> Result<T, MemoryError> {
        match self.read(ptr, T::spec_size()) {
            Ok(bytes) => Ok(T::of_le(le_to_nat(bytes))),
            Err(e) => Err(e),
        }
    }

    /// How a typed value is written at `ptr`.
    pub open spec fn set_val<T: Primary>(self, ptr: UWord, value: T) -> (
        MemView,
        Result<(), MemoryError>,
    ) {
        self.write(ptr, nat_to_le(value.as_le(), T::spec_size()))
    }

    /// How `copy` moves bytes between flat addresses: a source range
    /// whose end wraps below its start in the flat space is a wrong
    /// range wherever its pages lie.
    pub open spec fn copy(self, dest: UWord, src: UWord, size: UWord) -> (
        MemView,
        Result<(), MemoryError>,
    ) {
        if src + size > UWord::MAX {
            (self, Err(MemoryError::WrongRange))
        } else if Self::on_stack(dest) == Self::on_stack(src) {
            let off = Self::page_offset(dest);
            let soff = Self::page_offset(src);
            let (p, r) = spec_memmove(self.page_at(dest), off as UWord, soff as UWord, size);
            (self.with_page_at(dest, p), r)
        } else {
            let doff = Self::page_offset(dest);
            let soff = Self::page_offset(src);
            let dpage = self.page_at(dest);
            let spage = self.page_at(src);
            if !range_ok(doff, size as int, dpage.len() as int) {
                (self, Err(MemoryError::SegmentationFault(doff as UWord, size)))
            } else if !range_ok(soff, size as int, spage.len() as int) {
                (self, Err(MemoryError::SegmentationFault(soff as UWord, size)))
            } else {
                let data = spage.subrange(soff, soff + size);
                (self.with_page_at(dest, store_bytes(dpage, doff, data)), Ok(()))
            }
        }
    }

    /// How `set_zeros` fills a range.
    pub open spec fn zero_fill(self, dest: UWord, size: UWord) -> (
        MemView,
        Result<(), MemoryError>,
    ) {
        self.write(dest, Seq::new(size as nat, |i: int| 0u8))
    }

    /// How `compare` reads the two ranges and what it returns.
    pub open spec fn compare(self, a: UWord, b: UWord, size: UWord) -> Result<bool, MemoryError> {
        match self.read(a, size as nat) {
            Err(e) => Err(e),
            Ok(sa) => match self.read(b, size as nat) {
                Err(e) => Err(e),
                Ok(sb) => Ok(sa == sb),
            },
        }
    }

    /// How `reserve_global` reserves the heap prefix.
    pub open spec fn reserve(self, size: UWord, heap_limit: usize, heap_name: &'static str) -> (
        MemView,
        Result<(), MemoryError>,
    ) {
        if self.heap.len() != 0 {
            (self, Err(MemoryError::HeapAlreadyUsed))
        } else {
            let (p, r) = spec_expand(self.heap, heap_limit, heap_name, size);
            match r {
                Ok(u) => (MemView { heap: p, global_base: size, ..self }, Ok(u)),
                Err(e) => (self, Err(e)),
            }
        }
    }
}

/// The two pages and the global reservation mark.
pub struct Memory {
    pub stack: MemoryPage,
    pub heap: MemoryPage,
    pub global_base: UWord,
}

impl View for Memory {
    type V = MemView;

    open spec fn view(&self) -> MemView {
        MemView {
            stack: self.stack@,
            heap: self.heap@,
            global_base: self.global_base,
            stack_limit: self.stack.spec_limit(),
            heap_limit: self.heap.spec_limit(),
            stack_name: self.stack.spec_name(),
            heap_name: self.heap.spec_name(),
        }
    }
}

impl Memory {
    /// Both pages respect their limits, and the limits fit the word.
    pub open spec fn wf(self) -> bool {
        self.stack.inv() && self.heap.inv()
    }

    /// A memory with the given page limits.
    pub fn from_limits(stack_limit: usize, heap_limit: usize) -> (r: Self)
        requires
            stack_limit < HEAP_BASE,
            heap_limit <= u32::MAX,
        ensures
            r@.stack =~= Seq::<u8>::empty(),
            r@.heap =~= Seq::<u8>::empty(),
            r@.global_base == 0,
            r.stack.spec_limit() == stack_limit,
            r.heap.spec_limit() == heap_limit,
            r.stack.spec_name() == "stack",
            r.heap.spec_name() == "heap",
            r.wf(),
    {
        Self {
            stack: MemoryPage::new(stack_limit, "stack"),
            heap: MemoryPage::new(heap_limit, "heap"),
            global_base: 0,
        }
    }

    /// A memory with the default page limits.
    pub fn new() -> (r: Self)
        ensures
            r@.stack =~= Seq::<u8>::empty(),
            r@.heap =~= Seq::<u8>::empty(),
            r@.global_base == 0,
            r.stack.spec_limit() == DEFAULT_STACK_LIMIT,
            r.heap.spec_limit() == DEFAULT_HEAP_LIMIT,
            r.stack.spec_name() == "stack",
            r.heap.spec_name() == "heap",
            r.wf(),
    {
        Self::from_limits(DEFAULT_STACK_LIMIT, DEFAULT_HEAP_LIMIT)
    }

    /// Reads a typed little-endian value at a flat address.
    pub fn get<T: Primary>(&self, ptr: UWord) -> (r: Result<T, MemoryError>)
        ensures
            r == self@.get_val::<T>(ptr),
    {
        proof {
            T::lemma_size();
        }
        let size = T::size() as UWord;
        let slice = if ptr < HEAP_BASE {
            self.stack.get(ptr, size)
        } else {
            self.heap.get(ptr - HEAP_BASE, size)
        };
        match slice {
            Ok(s) => Ok(T::from_slice(s)),
            Err(e) => Err(e),
        }
    }

    /// Writes a typed little-endian value at a flat address.
    pub fn set<T: Primary>(&mut self, ptr: UWord, value: T) -> (r: Result<(), MemoryError>)
        ensures
            (final(self)@, r) == old(self)@.set_val(ptr, value),
            old(self).wf() ==> final(self).wf(),
    {
        proof {
            T::lemma_size();
            value.lemma_le();
            crate::bytes::lemma_nat_to_le_len(value.as_le(), T::spec_size());
        }
        let bytes = value.to_bytes();
        let r = if ptr < HEAP_BASE {
            self.stack.set_range(ptr, bytes.as_slice())
        } else {
            self.heap.set_range(ptr - HEAP_BASE, bytes.as_slice())
        };
        proof {
            let (m2, r2) = old(self)@.set_val(ptr, value);
            assert(self@ =~= m2);
        }
        r
    }

    /// Applies `f` to the typed value at `ptr` and writes the result
    /// back.
    pub fn update<T: Primary, F: FnOnce(T) -> T>(&mut self, ptr: UWord, f: F) -> (r: Result<
        (),
        MemoryError,
    >)
        requires
            forall|v: T| f.requires((v,)),
        ensures
            old(self).wf() ==> final(self).wf(),
            old(self)@.read(ptr, T::spec_size()) matches Err(e) ==> (r == Err::<(), MemoryError>(e)
                && final(self)@ == old(self)@),
            old(self)@.read(ptr, T::spec_size()) is Ok ==> exists|w: T|
                {
                    &&& #[trigger] f.ensures((old(self)@.get_val::<T>(ptr)->Ok_0,), w)
                    &&& (final(self)@, r) == old(self)@.set_val(ptr, w)
                },
    {
        match self.get::<T>(ptr) {
            Ok(v) => {
                let w = f(v);
                let r = self.set(ptr, w);
                proof {
                    assert(f.ensures((old(self)@.get_val::<T>(ptr)->Ok_0,), w));
                }
                r
            },
            Err(e) => Err(e),
        }
    }

    /// Copies `size` bytes between flat addresses; within one page the
    /// ranges may overlap.
    pub fn copy(&mut self, dest: UWord, src: UWord, size: UWord) -> (r: Result<(), MemoryError>)
        requires
            old(self).wf(),
        ensures
            (final(self)@, r) == old(self)@.copy(dest, src, size),
            final(self).wf(),
    {
        if src.checked_add(size).is_none() {
            return Err(MemoryError::WrongRange);
        }
        let dest_on_stack = dest < HEAP_BASE;
        let src_on_stack = src < HEAP_BASE;
        let r = if dest_on_stack == src_on_stack {
            if dest_on_stack {
                self.stack.memmove(dest, src, size)
            } else {
                self.heap.memmove(dest - HEAP_BASE, src - HEAP_BASE, size)
            }
        } else {
            let (doff, soff) = if dest_on_stack {
                (dest, src - HEAP_BASE)
            } else {
                (dest - HEAP_BASE, src)
            };
            let dlen = if dest_on_stack {
                self.stack.len()
            } else {
                self.heap.len()
            };
            if !(doff <= dlen && size <= dlen - doff) {
                Err(MemoryError::SegmentationFault(doff, size))
            } else {
                let snapshot = {
                    let s = if src_on_stack {
                        self.stack.get(soff, size)
                    } else {
                        self.heap.get(soff, size)
                    };
                    match s {
                        Ok(sl) => clone_bytes(sl),
                        Err(e) => {
                            return Err(e);
                        },
                    }
                };
                if dest_on_stack {
                    self.stack.set_range(doff, snapshot.as_slice())
                } else {
                    self.heap.set_range(doff, snapshot.as_slice())
                }
            }
        };
        proof {
            let (m2, r2) = old(self)@.copy(dest, src, size);
            assert(self@ =~= m2);
        }
        r
    }

    /// Fills `size` bytes at `dest` with zeros.
    pub fn set_zeros(&mut self, dest: UWord, size: UWord) -> (r: Result<(), MemoryError>)
        ensures
            (final(self)@, r) == old(self)@.zero_fill(dest, size),
            old(self).wf() ==> final(self).wf(),
    {
        let mut zeros: Vec<u8> = Vec::new();
        zeros.resize(size as usize, 0);
        proof {
            assert(zeros@ =~= Seq::new(size as nat, |i: int| 0u8));
        }
        let r = if dest < HEAP_BASE {
            self.stack.set_range(dest, zeros.as_slice())
        } else {
            self.heap.set_range(dest - HEAP_BASE, zeros.as_slice())
        };
        proof {
            let (m2, r2) = old(self)@.zero_fill(dest, size);
            assert(self@ =~= m2);
        }
        r
    }

    /// Whether the `size` bytes at `a` equal the `size` bytes at `b`.
    pub fn compare(&self, a: UWord, b: UWord, size: UWord) -> (r: Result<bool, MemoryError>)
        ensures
            r == self@.compare(a, b, size),
    {
        let sa = match (if a < HEAP_BASE {
            self.stack.get(a, size)
        } else {
            self.heap.get(a - HEAP_BASE, size)
        }) {
            Ok(s) => s,
            Err(e) => {
                return Err(e);
            },
        };
        let sb = match (if b < HEAP_BASE {
            self.stack.get(b, size)
        } else {
            self.heap.get(b - HEAP_BASE, size)
        }) {
            Ok(s) => s,
            Err(e) => {
                return Err(e);
            },
        };
        let n = sa.len();
        let mut i: usize = 0;
        let mut same = true;
        while i < n
            invariant
                i <= n,
                n == sa@.len() == sb@.len(),
                same == (sa@.take(i as int) =~= sb@.take(i as int)),
            decreases n - i,
        {
            if sa[i] != sb[i] {
                same = false;
                proof {
                    if sa@.take(i as int + 1) =~= sb@.take(i as int + 1) {
                        assert(sa@.take(i as int + 1)[i as int] == sb@.take(i as int + 1)[
                            i as int
                        ]);
                        assert(false);
                    }
                }
            } else {
                proof {
                    if same {
                        assert(sa@.take(i as int + 1) =~= sb@.take(i as int + 1));
                    } else {
                        if sa@.take(i as int + 1) =~= sb@.take(i as int + 1) {
                            assert forall|j: int| 0 <= j < i implies sa@.take(i as int)[j]
                                == sb@.take(i as int)[j] by {
                                assert(sa@.take(i as int + 1)[j] == sb@.take(i as int + 1)[j]);
                            }
                            assert(sa@.take(i as int) =~= sb@.take(i as int));
                            assert(false);
                        }
                    }
                }
            }
            i = i + 1;
        }
        proof {
            assert(sa@.take(n as int) =~= sa@);
            assert(sb@.take(n as int) =~= sb@);
            if same {
                assert(sa@ == sb@);
            } else {
                if sa@ == sb@ {
                    assert(sa@.take(n as int) =~= sb@.take(n as int));
                    assert(false);
                }
            }
        }
        Ok(same)
    }

    /// Reserves a zeroed heap prefix of `size` bytes for globals; the
    /// heap must not have been used yet.
    pub fn reserve_global(&mut self, size: UWord) -> (r: Result<(), MemoryError>)
        requires
            old(self).wf(),
        ensures
            final(self).wf(),
            (final(self)@, r) == old(self)@.reserve(
                size,
                old(self).heap.spec_limit(),
                old(self).heap.spec_name(),
            ),
    {
        if self.heap.len() != 0 {
            return Err(MemoryError::HeapAlreadyUsed);
        }
        match self.heap.expand(size) {
            Ok(u) => {
                self.global_base = size;
                proof {
                    let (m2, r2) = old(self)@.reserve(
                        size,
                        old(self).heap.spec_limit(),
                        old(self).heap.spec_name(),
                    );
                    assert(self@ =~= m2);
                }
                Ok(u)
            },
            Err(e) => Err(e),
        }
    }
}

} // verus!
