//! The open-file table: a fixed-capacity, indexed set of byte-oriented
//! files, of which at most one is *current* and receives the byte I/O.
//! Files stay in their cells; selection only records an index.

use vstd::prelude::*;

use crate::UWord;

verus! {

/// What one file can fail with.
#[derive(Copy, Clone, Debug, Eq, PartialEq, Structural)]
pub enum FileError {
    /// The file cannot be read.
    ReadingNotAvailable,
    /// The file cannot be written.
    WritingNotAvailable,
}

/// A file's capability: a byte source or a byte sink.
#[derive(Copy, Clone, Debug, Eq, PartialEq, Structural)]
pub enum FileMode {
    Read,
    Write,
}

/// A byte sink and source: what the table holds.  Implementations are
/// the embedder's; nothing is promised of them.
pub trait File: Sized {
    fn read(&mut self) -> Result<Option<u8>, FileError>;

    fn write(&mut self, val: u8) -> Result<(), FileError>;

    fn flush(&mut self) -> Result<(), FileError>;

    fn get_mode(&self) -> FileMode;
}

impl File for Vec<u8> {
    fn read(&mut self) -> Result<Option<u8>, FileError> {
        Err(FileError::ReadingNotAvailable)
    }

    fn write(&mut self, val: u8) -> Result<(), FileError> {
        self.push(val);
        Ok(())
    }

    fn flush(&mut self) -> Result<(), FileError> {
        Ok(())
    }

    fn get_mode(&self) -> FileMode {
        FileMode::Write
    }
}

/// What the table itself can fail with.
#[derive(Copy, Clone, Debug, Eq, PartialEq, Structural)]
pub enum FilesError {
    /// The current file refused the byte operation.
    FileError(FileError),
    /// No file is current.
    CurrentIsNotSet,
    /// The table is full.
    LimitExceeded,
    /// No open file sits at the index.
    NotFound,
}

/// How many files the table can hold at once.
pub const FILES_LIMIT: usize = 64;

/// How many cells of a table hold an open file.
pub open spec fn count_open<F: File>(s: Seq<Option<F>>) -> int
    decreases s.len(),
{
    if s.len() == 0 {
        0
    } else {
        count_open(s.drop_last()) + if s.last() is Some {
            1int
        } else {
            0int
        }
    }
}

/// No table holds more open files than cells, and none fewer than
/// none.
pub proof fn lemma_count_open_bounds<F: File>(s: Seq<Option<F>>)
    ensures
        0 <= count_open(s) <= s.len(),
    decreases s.len(),
{
    if s.len() > 0 {
        lemma_count_open_bounds(s.drop_last());
    }
}

/// An occupied cell counts at least once.
pub proof fn lemma_count_open_pos<F: File>(s: Seq<Option<F>>, i: int)
    requires
        0 <= i < s.len(),
        s[i] is Some,
    ensures
        count_open(s) >= 1,
    decreases s.len(),
{
    if i < s.len() - 1 {
        lemma_count_open_pos(s.drop_last(), i);
        lemma_count_open_bounds(s.drop_last());
    } else {
        lemma_count_open_bounds(s.drop_last());
    }
}

/// Replacing one cell changes the count by the difference of the two
/// contents.
pub proof fn lemma_count_open_update<F: File>(s: Seq<Option<F>>, i: int, v: Option<F>)
    requires
        0 <= i < s.len(),
    ensures
        count_open(s.update(i, v)) == count_open(s) - (if s[i] is Some {
            1int
        } else {
            0int
        }) + (if v is Some {
            1int
        } else {
            0int
        }),
    decreases s.len(),
{
    let s2 = s.update(i, v);
    if i == s.len() - 1 {
        assert(s2.drop_last() =~= s.drop_last());
    } else {
        assert(s2.drop_last() =~= s.drop_last().update(i, v));
        lemma_count_open_update(s.drop_last(), i, v);
    }
}

/// Growing by one cell adds its content's count.
pub proof fn lemma_count_open_push<F: File>(s: Seq<Option<F>>, v: Option<F>)
    ensures
        count_open(s.push(v)) == count_open(s) + (if v is Some {
            1int
        } else {
            0int
        }),
{
    assert(s.push(v).drop_last() =~= s);
}

/// The lowest vacant cell at or after `i`; the length when none is.
pub open spec fn lowest_free<F: File>(s: Seq<Option<F>>, i: int) -> int
    decreases s.len() - i,
{
    if !(0 <= i < s.len()) {
        s.len() as int
    } else if s[i] is None {
        i
    } else {
        lowest_free(s, i + 1)
    }
}

/// The open-file table.
pub struct Files<F: File> {
    files: Vec<Option<F>>,
    count: usize,
    current: Option<UWord>,
}

impl<F: File> Files<F> {
    /// The cells and what they hold.
    pub closed spec fn cells(self) -> Seq<Option<F>> {
        self.files@
    }

    /// How many files are open.
    pub closed spec fn spec_count(self) -> int {
        self.count as int
    }

    /// The index of the current file, if one is set.
    pub closed spec fn spec_current(self) -> Option<int> {
        match self.current {
            Some(i) => Some(i as int),
            None => None,
        }
    }

    /// Whether a cell holds an open file.
    pub open spec fn occupied(self, i: int) -> bool {
        0 <= i < self.cells().len() && self.cells()[i] is Some
    }

    /// The count matches the cells, the table respects its capacity,
    /// and the current index names an open file.
    pub open spec fn wf(self) -> bool {
        &&& self.spec_count() == count_open(self.cells())
        &&& self.cells().len() <= FILES_LIMIT
        &&& match self.spec_current() {
            Some(i) => self.occupied(i),
            None => true,
        }
    }

    /// An empty table.
    pub fn new() -> (r: Self)
        ensures
            r.cells() =~= Seq::<Option<F>>::empty(),
            r.spec_count() == 0,
            r.spec_current() is None,
            r.wf(),
    {
        Self { files: Vec::new(), count: 0, current: None }
    }

    /// Opens a file in the lowest vacant cell and returns its index;
    /// a full table hands the file back unchanged.
    pub fn open(&mut self, file: F) -> (r: Result<UWord, (FilesError, F)>)
        requires
            old(self).wf(),
        ensures
            final(self).wf(),
            r is Err <==> old(self).spec_count() == FILES_LIMIT,
            r is Err ==> (r == Err::<UWord, (FilesError, F)>((FilesError::LimitExceeded, file))
                && *final(self) == *old(self)),
            r matches Ok(idx) ==> {
                &&& idx as int == lowest_free(old(self).cells(), 0)
                &&& final(self).cells() == (if (idx as int) < old(self).cells().len() {
                    old(self).cells().update(idx as int, Some(file))
                } else {
                    old(self).cells().push(Some(file))
                })
                &&& final(self).spec_count() == old(self).spec_count() + 1
                &&& final(self).spec_current() == old(self).spec_current()
            },
    {
        proof {
            lemma_count_open_bounds(self.files@);
        }
        if self.count >= FILES_LIMIT {
            return Err((FilesError::LimitExceeded, file));
        }
        let n = self.files.len();
        let mut i: usize = 0;
        let mut found: Option<usize> = None;
        while i < n
            invariant_except_break
                i <= n == self.files@.len(),
                found is None,
                lowest_free(self.files@, 0) == lowest_free(self.files@, i as int),
            ensures
                n == self.files@.len(),
                match found {
                    Some(k) => k as int == lowest_free(self.files@, 0) && k < n
                        && self.files@[k as int] is None,
                    None => lowest_free(self.files@, 0) == n,
                },
            decreases n - i,
        {
            if self.files[i].is_none() {
                found = Some(i);
                break;
            }
            i = i + 1;
        }
        let ghost pre = self.files@;
        let idx: usize = match found {
            Some(k) => k,
            None => {
                let len = self.files.len();
                proof {
                    // every cell is full, so the count says the table
                    // has room to grow
                    assert(lowest_free(pre, 0) == len);
                    lemma_grown_cells_are_full(pre, 0);
                    count_open_of_full(pre);
                }
                self.files.push(None);
                len
            },
        };
        self.files.set(idx, Some(file));
        self.count = self.count + 1;
        proof {
            if idx < pre.len() {
                assert(pre[idx as int] is None);
                lemma_count_open_update(pre, idx as int, Some(file));
            } else {
                lemma_count_open_push(pre, Option::<F>::None);
                lemma_count_open_update(pre.push(None), idx as int, Some(file));
                assert(self.files@ =~= pre.push(Some(file)));
            }
        }
        Ok(idx as UWord)
    }

    /// Closes the file at an index and hands it back; its cell becomes
    /// vacant, and a closed current file stops being current.
    pub fn close(&mut self, idx: UWord) -> (r: Result<F, FilesError>)
        requires
            old(self).wf(),
        ensures
            final(self).wf(),
            r is Ok <==> old(self).occupied(idx as int),
            r matches Ok(f) ==> {
                &&& Some(f) == old(self).cells()[idx as int]
                &&& final(self).cells() == old(self).cells().update(idx as int, None::<F>)
                &&& final(self).spec_count() == old(self).spec_count() - 1
                &&& final(self).spec_current() == (if old(self).spec_current() == Some(
                    idx as int,
                ) {
                    None::<int>
                } else {
                    old(self).spec_current()
                })
            },
            r is Err ==> (r == Err::<F, FilesError>(FilesError::NotFound) && *final(self) == *old(
                self,
            )),
    {
        if (idx as usize) >= self.files.len() {
            return Err(FilesError::NotFound);
        }
        if self.files[idx as usize].is_none() {
            return Err(FilesError::NotFound);
        }
        proof {
            lemma_count_open_pos(self.files@, idx as int);
            lemma_count_open_update(self.files@, idx as int, None::<F>);
        }
        let mut taken: Option<F> = None;
        self.files.set_and_swap(idx as usize, &mut taken);
        let file = match taken {
            Some(f) => f,
            None => {
                proof {
                    assert(false);
                }
                return Err(FilesError::NotFound);
            },
        };
        self.count = self.count - 1;
        let clear = match self.current {
            Some(c) => c == idx,
            None => false,
        };
        if clear {
            self.current = None;
        }
        Ok(file)
    }

    /// Makes the file at an index current; no file is touched, only
    /// the selection changes.
    pub fn set_current(&mut self, idx: UWord) -> (r: Result<(), FilesError>)
        requires
            old(self).wf(),
        ensures
            final(self).wf(),
            r is Ok <==> old(self).occupied(idx as int),
            r is Ok ==> (final(self).cells() == old(self).cells() && final(self).spec_count()
                == old(self).spec_count() && final(self).spec_current() == Some(idx as int)),
            r is Err ==> (r == Err::<(), FilesError>(FilesError::NotFound) && *final(self) == *old(
                self,
            )),
    {
        if (idx as usize) >= self.files.len() {
            return Err(FilesError::NotFound);
        }
        if self.files[idx as usize].is_none() {
            return Err(FilesError::NotFound);
        }
        self.current = Some(idx);
        Ok(())
    }

    /// The index of the current file.
    pub fn current(&self) -> (r: Result<UWord, FilesError>)
        ensures
            self.spec_current() matches Some(i) ==> r == Ok::<UWord, FilesError>(i as UWord),
            self.spec_current() is None ==> r == Err::<UWord, FilesError>(
                FilesError::CurrentIsNotSet,
            ),
    {
        match self.current {
            Some(i) => Ok(i),
            None => Err(FilesError::CurrentIsNotSet),
        }
    }

    /// Reads one byte from the current file; what comes back is the
    /// file's own affair, but the table's errors are pinned: with no
    /// current file the read is refused, with one it reaches the file
    /// and only the file's own failure is reported.
    pub fn read(&mut self) -> (r: Result<Option<u8>, FilesError>)
        requires
            old(self).wf(),
        ensures
            final(self).wf(),
            old(self).spec_current() is None <==> r == Err::<Option<u8>, FilesError>(
                FilesError::CurrentIsNotSet,
            ),
            old(self).spec_current() is None ==> *final(self) == *old(self),
            old(self).spec_current() matches Some(i) ==> {
                &&& (r matches Ok(_) || r matches Err(FilesError::FileError(_)))
                &&& io_frame(*old(self), *final(self), i)
            },
    {
        let idx = match self.current {
            Some(i) => i,
            None => {
                return Err(FilesError::CurrentIsNotSet);
            },
        };
        let mut taken: Option<F> = None;
        self.files.set_and_swap(idx as usize, &mut taken);
        let mut file = match taken {
            Some(f) => f,
            None => {
                proof {
                    assert(false);
                }
                return Err(FilesError::CurrentIsNotSet);
            },
        };
        let res = file.read();
        self.files.set(idx as usize, Some(file));
        proof {
            lemma_io_frame(*old(self), *self, idx as int);
        }
        match res {
            Ok(v) => Ok(v),
            Err(e) => Err(FilesError::FileError(e)),
        }
    }

    /// Writes one byte to the current file; errors are pinned as for
    /// `read`.
    pub fn write(&mut self, val: u8) -> (r: Result<(), FilesError>)
        requires
            old(self).wf(),
        ensures
            final(self).wf(),
            old(self).spec_current() is None <==> r == Err::<(), FilesError>(
                FilesError::CurrentIsNotSet,
            ),
            old(self).spec_current() is None ==> *final(self) == *old(self),
            old(self).spec_current() matches Some(i) ==> {
                &&& (r is Ok || r matches Err(FilesError::FileError(_)))
                &&& io_frame(*old(self), *final(self), i)
            },
    {
        let idx = match self.current {
            Some(i) => i,
            None => {
                return Err(FilesError::CurrentIsNotSet);
            },
        };
        let mut taken: Option<F> = None;
        self.files.set_and_swap(idx as usize, &mut taken);
        let mut file = match taken {
            Some(f) => f,
            None => {
                proof {
                    assert(false);
                }
                return Err(FilesError::CurrentIsNotSet);
            },
        };
        let res = file.write(val);
        self.files.set(idx as usize, Some(file));
        proof {
            lemma_io_frame(*old(self), *self, idx as int);
        }
        match res {
            Ok(u) => Ok(u),
            Err(e) => Err(FilesError::FileError(e)),
        }
    }

    /// Flushes the current file; errors are pinned as for `read`.
    pub fn flush(&mut self) -> (r: Result<(), FilesError>)
        requires
            old(self).wf(),
        ensures
            final(self).wf(),
            old(self).spec_current() is None <==> r == Err::<(), FilesError>(
                FilesError::CurrentIsNotSet,
            ),
            old(self).spec_current() is None ==> *final(self) == *old(self),
            old(self).spec_current() matches Some(i) ==> {
                &&& (r is Ok || r matches Err(FilesError::FileError(_)))
                &&& io_frame(*old(self), *final(self), i)
            },
    {
        let idx = match self.current {
            Some(i) => i,
            None => {
                return Err(FilesError::CurrentIsNotSet);
            },
        };
        let mut taken: Option<F> = None;
        self.files.set_and_swap(idx as usize, &mut taken);
        let mut file = match taken {
            Some(f) => f,
            None => {
                proof {
                    assert(false);
                }
                return Err(FilesError::CurrentIsNotSet);
            },
        };
        let res = file.flush();
        self.files.set(idx as usize, Some(file));
        proof {
            lemma_io_frame(*old(self), *self, idx as int);
        }
        match res {
            Ok(u) => Ok(u),
            Err(e) => Err(FilesError::FileError(e)),
        }
    }
}

/// What a byte operation may do to the table: only the current file's
/// own cell may change, and it stays open; count and selection are
/// kept.
pub open spec fn io_frame<F: File>(pre: Files<F>, post: Files<F>, i: int) -> bool {
    &&& post.cells().len() == pre.cells().len()
    &&& forall|j: int| 0 <= j < pre.cells().len() && j != i ==> post.cells()[j] == pre.cells()[j]
    &&& post.occupied(i)
    &&& post.spec_count() == pre.spec_count()
    &&& post.spec_current() == pre.spec_current()
}

/// The byte operations keep the table well formed: swapping one open
/// file for another moves the count nowhere.
proof fn lemma_io_frame<F: File>(pre: Files<F>, post: Files<F>, i: int)
    requires
        pre.wf(),
        0 <= i < pre.cells().len(),
        pre.cells()[i] is Some,
        post.cells().len() == pre.cells().len(),
        forall|j: int| 0 <= j < pre.cells().len() && j != i ==> post.cells()[j] == pre.cells()[j],
        post.cells()[i] is Some,
        post.spec_count() == pre.spec_count(),
        post.spec_current() == pre.spec_current(),
    ensures
        post.wf(),
        io_frame(pre, post, i),
{
    assert(post.cells() =~= pre.cells().update(i, post.cells()[i]));
    lemma_count_open_update(pre.cells(), i, post.cells()[i]);
}

/// Before the lowest vacant cell everything is full.
proof fn lemma_grown_cells_are_full<F: File>(s: Seq<Option<F>>, i: int)
    requires
        0 <= i <= s.len(),
    ensures
        forall|j: int| i <= j < lowest_free(s, i) ==> s[j] is Some,
    decreases s.len() - i,
{
    if i < s.len() && s[i] is Some {
        lemma_grown_cells_are_full(s, i + 1);
    }
}

/// A table with no vacant cell holds as many files as cells.
proof fn count_open_of_full<F: File>(s: Seq<Option<F>>)
    requires
        forall|j: int| 0 <= j < s.len() ==> s[j] is Some,
    ensures
        count_open(s) == s.len(),
    decreases s.len(),
{
    if s.len() > 0 {
        count_open_of_full(s.drop_last());
    }
}

} // verus!
