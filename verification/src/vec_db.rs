//! The `vec_db` in-memory database file: a database file stored in an
//! owned or borrowed `Vec<u8>` (or a read-only slice), with the file
//! methods SQLite calls on it.

use vstd::prelude::*;
use std::sync::Arc;
use crate::codes;

verus! {

/// Byte array storing an in-memory database file.
///
/// The vector grows as needed, but is not automatically shrunk when the
/// database file is reduced in size.
pub enum MemFile<'a> {
    /// Owned vector.
    Owned(Vec<u8>),
    /// Mutably borrowed vector that can be written and resized.
    Writable(&'a mut Vec<u8>),
    /// Immutably borrowed slice for a read-only database.
    ReadOnly(&'a [u8]),
}

impl<'a> MemFile<'a> {
    /// The bytes of the file.
    pub open spec fn bytes(&self) -> Seq<u8> {
        match self {
            MemFile::Owned(v) => v@,
            MemFile::Writable(v) => v@,
            MemFile::ReadOnly(s) => s@,
        }
    }

    /// The bytes of the file as a slice.
    pub fn as_slice(&self) -> (s: &[u8])
        ensures
            s@ == self.bytes(),
    {
        match self {
            MemFile::Owned(d) => d.as_slice(),
            MemFile::Writable(d) => d.as_slice(),
            MemFile::ReadOnly(d) => d,
        }
    }

    /// The length of the file in bytes.
    pub fn len(&self) -> (n: usize)
        ensures
            n == self.bytes().len(),
    {
        self.as_slice().len()
    }

    /// The vector behind this file, if it may be written: `None` for a
    /// shared file (other `Arc` handles exist) or a read-only slice.
    pub fn get_mut_vec<'b>(this: &'b mut Arc<MemFile<'a>>) -> (r: Option<&'b mut Vec<u8>>)
        ensures
            r matches Some(v) ==> v@ == (**old(this)).bytes() && (**final(this)).bytes() == final(v)@,
            r is None ==> *final(this) == *old(this),
            (**old(this)) is ReadOnly ==> r is None,
    {
        match arc_get_mut(this) {
            Some(m) => match m {
                MemFile::Owned(d) => Some(d),
                MemFile::Writable(d) => Some(&mut **d),
                MemFile::ReadOnly(_) => None,
            },
            None => None,
        }
    }
}

/// `Arc::get_mut`: a unique reference to the contents when no other `Arc`
/// or `Weak` handle to them exists, else `None`. The contract states what
/// holds either way; which case occurs depends on the handles alive at run
/// time and is not stated.
#[verifier::external_body]
fn arc_get_mut<'b, T>(this: &'b mut Arc<T>) -> (r: Option<&'b mut T>)
    ensures
        r is None ==> *final(this) == *old(this),
        r matches Some(m) ==> *m == **old(this) && **final(this) == *final(m),
{
    Arc::get_mut(this)
}

/// `Vec::capacity`: the number of elements the vector can hold without
/// reallocating, which is never less than its length.
#[verifier::external_body]
fn vec_capacity(v: &Vec<u8>) -> (c: usize)
    ensures
        c >= v.len(),
{
    v.capacity()
}

/// The file after writing `buf` at offset `ofst`: the gap between the old
/// end and `ofst`, if any, is filled with zeros.
pub open spec fn written(data: Seq<u8>, buf: Seq<u8>, ofst: int) -> Seq<u8> {
    let end = ofst + buf.len();
    let n = if end > data.len() { end } else { data.len() as int };
    Seq::new(n as nat, |i: int|
        if ofst <= i < end { buf[i - ofst] } else if i < data.len() { data[i] } else { 0u8 })
}

/// The `amt` bytes read at offset `ofst`, zero past the end of the file.
pub open spec fn read_at(data: Seq<u8>, ofst: int, amt: int) -> Seq<u8> {
    Seq::new(amt as nat, |i: int| if ofst + i < data.len() { data[ofst + i] } else { 0u8 })
}

/// The size limit after a `SQLITE_FCNTL_SIZE_LIMIT` request for `limit`:
/// a negative request only queries the current limit, and a limit below
/// the current length is raised to the length.
pub open spec fn size_limit_after(limit: int, len: int, size_max: int) -> int {
    if limit < len {
        if limit < 0 { size_max } else { len }
    } else {
        limit
    }
}

/// Whether a write ending at byte `end` is refused for want of room, for
/// a file vector of length `len` and capacity `capacity`: it must grow past
/// the allocation, and either pages are memory-mapped (the allocation must
/// not move) or the allocation `reserve` then gave (`reserved`) exceeds the
/// size limit.
pub open spec fn growth_refused(len: int, capacity: int, reserved: int, end: int, memory_mapped: int, size_max: int) -> bool {
    end > len && end > capacity && (memory_mapped != 0 || reserved > size_max)
}

/// The decision of `xWrite` on growing the file's vector: `true` (answer
/// `SQLITE_FULL`) exactly when [`growth_refused`] holds.
pub fn write_refused(len: usize, capacity: usize, reserved: usize, end: usize, memory_mapped: u16, size_max: usize) -> (b: bool)
    ensures
        b == growth_refused(len as int, capacity as int, reserved as int, end as int, memory_mapped as int, size_max as int),
{
    end > len && end > capacity && (memory_mapped != 0 || reserved > size_max)
}

/// The device characteristics of a `vec_db` file.
pub open spec fn vec_db_device_characteristics() -> i32 {
    codes::SQLITE_IOCAP_ATOMIC | codes::SQLITE_IOCAP_POWERSAFE_OVERWRITE
        | codes::SQLITE_IOCAP_SAFE_APPEND | codes::SQLITE_IOCAP_SEQUENTIAL
}

/// `sqlite3_file` subclass of the `vec_db` virtual file system: the
/// database is stored in an owned or borrowed `Vec<u8>`.
pub struct VecDbFile<'a> {
    pub data: Arc<MemFile<'a>>,
    pub size_max: usize,
    pub memory_mapped: u16,
    pub lock: u8,
}

/// Writes `buf` at offset `ofst` into a file's vector, growing it
/// (zero-filling any gap) when the write goes past its end, unless growing
/// is refused (`SQLITE_FULL`): for some capacity of the vector and some
/// capacity `reserve` then gave, [`growth_refused`] decides.
pub fn write_into(data: &mut Vec<u8>, buf: &[u8], ofst: usize, memory_mapped: u16, size_max: usize) -> (rc: i32)
    requires
        ofst + buf@.len() <= usize::MAX,
    ensures
        rc == codes::SQLITE_OK || rc == codes::SQLITE_FULL,
        rc == codes::SQLITE_OK ==> final(data)@ == written(old(data)@, buf@, ofst as int),
        rc == codes::SQLITE_FULL ==> final(data)@ == old(data)@,
        exists|capacity: int, reserved: int|
            old(data)@.len() <= capacity && old(data)@.len() <= reserved <= usize::MAX
            && (rc == codes::SQLITE_FULL <==> #[trigger] growth_refused(
                old(data)@.len() as int,
                capacity,
                reserved,
                ofst + buf@.len(),
                memory_mapped as int,
                size_max as int,
            )),
{
let ghost old_bytes = data@;
    let sz = data.len();
    let amt = buf.len();
    let end = ofst + amt;
    let sz_alloc = vec_capacity(data);
    if end > sz && end > sz_alloc && memory_mapped == 0 {
        data.reserve(end - sz);
    }
    let reserved = vec_capacity(data);
    let refused = write_refused(sz, sz_alloc, reserved, end, memory_mapped, size_max);
    proof {
        assert(sz <= sz_alloc && sz <= reserved);
        assert(refused == growth_refused(old(data)@.len() as int, sz_alloc as int, reserved as int,
            ofst + buf@.len(), memory_mapped as int, size_max as int));
    }
    if refused {
        return codes::SQLITE_FULL;
    }
    if end > sz {
        while data.len() < end
            invariant
                sz <= data@.len() <= end,
                data@.subrange(0, sz as int) == old_bytes,
                forall|j: int| sz <= j < data@.len() ==> data@[j] == 0u8,
            decreases end - data@.len(),
        {
            data.push(0u8);
        }
    }
    let ghost grown = data@;
    assert(grown.len() == (if end > sz { end } else { sz }));
    assert forall|j: int| 0 <= j < sz implies grown[j] == old_bytes[j] by {
        if end > sz {
            assert(grown.subrange(0, sz as int)[j] == old_bytes[j]);
        }
    }
    let mut i: usize = 0;
    while i < amt
        invariant
            amt == buf@.len(),
            sz == old_bytes.len(),
            grown.len() == (if end > sz { end } else { sz }),
            forall|j: int| 0 <= j < sz ==> grown[j] == old_bytes[j],
            forall|j: int| sz <= j < grown.len() ==> grown[j] == 0u8,
            end == ofst + amt,
            data@.len() == grown.len(),
            grown.len() >= end,
            i <= amt,
            forall|j: int| 0 <= j < data@.len() && !(ofst <= j < ofst + i) ==> data@[j] == grown[j],
            forall|j: int| ofst <= j < ofst + i ==> data@[j] == buf@[j - ofst],
        decreases amt - i,
    {
        data[ofst + i] = buf[i];
        i = i + 1;
    }
    let ghost w = written(old_bytes, buf@, ofst as int);
    assert(w.len() == data@.len());
    assert forall|j: int| 0 <= j < data@.len() implies data@[j] == w[j] by {
        if ofst <= j < end {
        } else if j < sz {
            assert(data@[j] == grown[j]);
        } else {
            assert(data@[j] == grown[j]);
        }
    }
    assert(data@ =~= w);
    codes::SQLITE_OK
}

impl<'a> VecDbFile<'a> {
    /// The bytes of the file.
    pub open spec fn bytes(&self) -> Seq<u8> {
        (*self.data).bytes()
    }

    /// A new unlocked, unmapped file with the given contents and size limit.
    pub fn new(data: MemFile<'a>, size_max: usize) -> (f: Self)
        ensures
            f.bytes() == data.bytes(),
            *f.data == data,
            f.size_max == size_max,
            f.memory_mapped == 0,
            f.lock == 0,
    {
        VecDbFile { data: Arc::new(data), size_max, memory_mapped: 0, lock: 0 }
    }

    /// Reads `buf.len()` bytes at offset `ofst` into `buf`. Past the end of
    /// the file the buffer is zero-filled and `SQLITE_IOERR_SHORT_READ` is
    /// returned.
    pub fn x_read(&self, buf: &mut [u8], ofst: i64) -> (rc: i32)
        requires
            ofst >= 0,
            ofst + old(buf)@.len() <= usize::MAX,
        ensures
            final(buf)@ == read_at(self.bytes(), ofst as int, old(buf)@.len() as int),
            rc == (if ofst + old(buf)@.len() > self.bytes().len() {
                codes::SQLITE_IOERR_SHORT_READ
            } else {
                codes::SQLITE_OK
            }),
    {
        let data = (*self.data).as_slice();
        let amt = buf.len();
        let ofst = ofst as usize;
        let n = data.len();
        let mut i: usize = 0;
        while i < amt
            invariant
                amt == buf@.len(),
                n == data@.len(),
                data@ == self.bytes(),
                ofst + amt <= usize::MAX,
                i <= amt,
                forall|j: int| 0 <= j < i ==> buf@[j] == read_at(data@, ofst as int, amt as int)[j],
            decreases amt - i,
        {
            if ofst + i < n {
                buf[i] = data[ofst + i];
            } else {
                buf[i] = 0;
            }
            i = i + 1;
        }
        assert(buf@ =~= read_at(data@, ofst as int, amt as int));
        if ofst + amt > n {
            codes::SQLITE_IOERR_SHORT_READ
        } else {
            codes::SQLITE_OK
        }
    }

    /// Writes `buf` at offset `ofst`, growing the file (zero-filling any
    /// gap) when the write goes past its end. Returns `SQLITE_READONLY` when
    /// the file cannot be written, `SQLITE_FULL` when growing it is refused
    /// (pages are memory-mapped, or the new allocation would exceed the
    /// size limit), else `SQLITE_OK`.
    pub fn x_write(&mut self, buf: &[u8], ofst: i64) -> (rc: i32)
        requires
            ofst >= 0,
            ofst + buf@.len() <= usize::MAX,
        ensures
            rc == codes::SQLITE_OK || rc == codes::SQLITE_READONLY || rc == codes::SQLITE_FULL,
            rc == codes::SQLITE_OK ==> final(self).bytes() == written(old(self).bytes(), buf@, ofst as int),
            rc != codes::SQLITE_OK ==> final(self).bytes() == old(self).bytes(),
            rc == codes::SQLITE_FULL ==> ofst + buf@.len() > old(self).bytes().len(),
            (ofst + buf@.len() <= old(self).bytes().len() && rc != codes::SQLITE_READONLY)
                ==> rc == codes::SQLITE_OK,
            (*old(self).data) is ReadOnly ==> rc == codes::SQLITE_READONLY,
            rc != codes::SQLITE_READONLY ==> exists|capacity: int, reserved: int|
                old(self).bytes().len() <= capacity && old(self).bytes().len() <= reserved <= usize::MAX
                && (rc == codes::SQLITE_FULL <==> #[trigger] growth_refused(
                    old(self).bytes().len() as int,
                    capacity,
                    reserved,
                    ofst + buf@.len(),
                    old(self).memory_mapped as int,
                    old(self).size_max as int,
                )),
            final(self).size_max == old(self).size_max,
            final(self).memory_mapped == old(self).memory_mapped,
            final(self).lock == old(self).lock,
    {
        let memory_mapped = self.memory_mapped;
        let size_max = self.size_max;
        let data = match MemFile::get_mut_vec(&mut self.data) {
            Some(d) => d,
            None => return codes::SQLITE_READONLY,
        };
        let ghost before = data@;
        let rc = write_into(data, buf, ofst as usize, memory_mapped, size_max);
        proof {
            let (c, r) = choose|c: int, r: int|
                before.len() <= c && before.len() <= r <= usize::MAX
                && (rc == codes::SQLITE_FULL <==> #[trigger] growth_refused(
                    before.len() as int, c, r, (ofst as usize) + buf@.len(), memory_mapped as int, size_max as int));
            assert(before == old(self).bytes());
            assert(growth_refused(old(self).bytes().len() as int, c, r, ofst + buf@.len(),
                old(self).memory_mapped as int, old(self).size_max as int)
                == growth_refused(before.len() as int, c, r, (ofst as usize) + buf@.len(), memory_mapped as int, size_max as int));
        }
        rc
    }

    /// Truncates the file to `size` bytes. Growing a file this way is not
    /// supported (`SQLITE_FULL`), nor is truncating a file that cannot be
    /// written.
    pub fn x_truncate(&mut self, size: i64) -> (rc: i32)
        requires
            size >= 0,
        ensures
            rc == codes::SQLITE_OK || rc == codes::SQLITE_FULL,
            rc == codes::SQLITE_OK ==> final(self).bytes() == old(self).bytes().subrange(0, size as int),
            rc == codes::SQLITE_FULL ==> final(self).bytes() == old(self).bytes(),
            size > old(self).bytes().len() ==> rc == codes::SQLITE_FULL,
            (*old(self).data) is ReadOnly ==> rc == codes::SQLITE_FULL,
            final(self).size_max == old(self).size_max,
            final(self).memory_mapped == old(self).memory_mapped,
            final(self).lock == old(self).lock,
    {
        let size = size as u64;
        match MemFile::get_mut_vec(&mut self.data) {
            Some(data) => {
                if size > data.len() as u64 {
                    codes::SQLITE_FULL
                } else {
                    data.truncate(size as usize);
                    codes::SQLITE_OK
                }
            },
            None => codes::SQLITE_FULL,
        }
    }

    /// Syncing a memory file does nothing.
    pub fn x_sync(&self, flags: i32) -> (rc: i32)
        ensures
            rc == codes::SQLITE_OK,
    {
        codes::SQLITE_OK
    }

    /// The current size of the file in bytes.
    pub fn x_size(&self) -> (size: i64)
        requires
            self.bytes().len() <= i64::MAX,
        ensures
            size == self.bytes().len(),
    {
        (*self.data).len() as i64
    }

    /// Records the lock level SQLite takes. Any level above a shared lock
    /// needs a writable file (`SQLITE_READONLY` otherwise).
    pub fn x_lock(&mut self, lock: i32) -> (rc: i32)
        ensures
            rc == codes::SQLITE_OK || rc == codes::SQLITE_READONLY,
            rc == codes::SQLITE_OK ==> final(self).lock == lock as u8,
            rc == codes::SQLITE_READONLY ==> final(self).lock == old(self).lock && (lock as u8) > 1,
            (lock as u8) <= 1 ==> rc == codes::SQLITE_OK,
            (*old(self).data) is ReadOnly && (lock as u8) > 1 ==> rc == codes::SQLITE_READONLY,
            final(self).bytes() == old(self).bytes(),
            final(self).size_max == old(self).size_max,
            final(self).memory_mapped == old(self).memory_mapped,
    {
        let lock = lock as u8;
        if lock > 1 {
            if MemFile::get_mut_vec(&mut self.data).is_none() {
                return codes::SQLITE_READONLY;
            }
        }
        self.lock = lock;
        codes::SQLITE_OK
    }

    /// `SQLITE_FCNTL_SIZE_LIMIT`: sets the size limit to `limit` (raised to
    /// the current length if below it), or only reports it for a negative
    /// `limit`. Returns the limit now in force.
    pub fn set_size_limit(&mut self, limit: i64) -> (res: i64)
        requires
            old(self).bytes().len() <= i64::MAX,
            limit < 0 ==> old(self).size_max <= i64::MAX,
            limit <= usize::MAX,
        ensures
            res == size_limit_after(limit as int, old(self).bytes().len() as int, old(self).size_max as int),
            final(self).size_max == res,
            final(self).bytes() == old(self).bytes(),
            final(self).data == old(self).data,
            final(self).memory_mapped == old(self).memory_mapped,
            final(self).lock == old(self).lock,
    {
        let len = (*self.data).len() as i64;
        let mut limit = limit;
        if limit < len {
            if limit < 0 {
                limit = self.size_max as i64;
            } else {
                limit = len;
            }
        }
        self.size_max = limit as usize;
        limit
    }

    /// File control: answers `SQLITE_FCNTL_SIZE_LIMIT` (see
    /// [`VecDbFile::set_size_limit`]), accepts the diagnostic
    /// `SQLITE_FCNTL_VFSNAME` (whose text, the file's debug description,
    /// the caller allocates for SQLite), and reports `SQLITE_NOTFOUND` for
    /// the opcodes a `vec_db` file does not implement.
    pub fn x_file_control(&mut self, op: i32, arg: &mut i64) -> (rc: i32)
        requires
            op == codes::SQLITE_FCNTL_SIZE_LIMIT ==> old(self).bytes().len() <= i64::MAX,
            op == codes::SQLITE_FCNTL_SIZE_LIMIT && *old(arg) < 0 ==> old(self).size_max <= i64::MAX,
            op == codes::SQLITE_FCNTL_SIZE_LIMIT ==> *old(arg) <= usize::MAX,
        ensures
            op == codes::SQLITE_FCNTL_SIZE_LIMIT ==> {
                &&& rc == codes::SQLITE_OK
                &&& *final(arg) == size_limit_after(*old(arg) as int, old(self).bytes().len() as int, old(self).size_max as int)
                &&& final(self).size_max == *final(arg)
            },
            op == codes::SQLITE_FCNTL_VFSNAME ==> {
                &&& rc == codes::SQLITE_OK
                &&& *final(arg) == *old(arg)
                &&& final(self).size_max == old(self).size_max
            },
            op != codes::SQLITE_FCNTL_SIZE_LIMIT && op != codes::SQLITE_FCNTL_VFSNAME ==> {
                &&& rc == codes::SQLITE_NOTFOUND
                &&& *final(arg) == *old(arg)
                &&& final(self).size_max == old(self).size_max
            },
            final(self).bytes() == old(self).bytes(),
            final(self).memory_mapped == old(self).memory_mapped,
            final(self).lock == old(self).lock,
    {
        if op == codes::SQLITE_FCNTL_SIZE_LIMIT {
            let limit = self.set_size_limit(*arg);
            *arg = limit;
            codes::SQLITE_OK
        } else if op == codes::SQLITE_FCNTL_VFSNAME {
            codes::SQLITE_OK
        } else {
            codes::SQLITE_NOTFOUND
        }
    }

    /// The device characteristics: atomic, power-safe overwrite, safe
    /// append and sequential.
    pub fn x_device_characteristics(&self) -> (flags: i32)
        ensures
            flags == vec_db_device_characteristics(),
    {
        codes::SQLITE_IOCAP_ATOMIC | codes::SQLITE_IOCAP_POWERSAFE_OVERWRITE
            | codes::SQLITE_IOCAP_SAFE_APPEND | codes::SQLITE_IOCAP_SEQUENTIAL
    }

    /// Maps `amt` bytes at offset `ofst`: returns the offset of the mapped
    /// region when it lies within the file (and counts the mapping), else
    /// `None`.
    pub fn x_fetch(&mut self, ofst: i64, amt: i32) -> (p: Option<usize>)
        requires
            ofst >= 0,
            amt >= 0,
            ofst + amt <= usize::MAX,
            ofst + amt <= old(self).bytes().len() ==> old(self).memory_mapped < u16::MAX,
        ensures
            ofst + amt > old(self).bytes().len() ==> p is None && final(self).memory_mapped == old(self).memory_mapped,
            ofst + amt <= old(self).bytes().len() ==> p == Some(ofst as usize) && final(self).memory_mapped == old(self).memory_mapped + 1,
            final(self).data == old(self).data,
            final(self).size_max == old(self).size_max,
            final(self).lock == old(self).lock,
    {
        let amt = amt as usize;
        let ofst = ofst as usize;
        if ofst + amt > (*self.data).len() {
            None
        } else {
            self.memory_mapped = self.memory_mapped + 1;
            Some(ofst)
        }
    }

    /// Releases a mapping taken by [`VecDbFile::x_fetch`].
    pub fn x_unfetch(&mut self, ofst: i64) -> (rc: i32)
        requires
            old(self).memory_mapped != 0,
        ensures
            rc == codes::SQLITE_OK,
            final(self).memory_mapped == old(self).memory_mapped - 1,
            final(self).data == old(self).data,
            final(self).size_max == old(self).size_max,
            final(self).lock == old(self).lock,
    {
        self.memory_mapped = self.memory_mapped - 1;
        codes::SQLITE_OK
    }

    /// The file's contents for in-place modification: only when no page is
    /// mapped, no lock is held and no other handle shares the contents.
    pub fn get_mut(&mut self) -> (r: Option<&mut MemFile<'a>>)
        ensures
            (old(self).memory_mapped != 0 || old(self).lock != 0) ==> r is None,
            r is None ==> *final(self) == *old(self),
            r matches Some(m) ==> *m == *old(self).data && *final(self).data == *final(m),
            final(self).size_max == old(self).size_max,
            final(self).memory_mapped == old(self).memory_mapped,
            final(self).lock == old(self).lock,
    {
        if self.memory_mapped == 0 && self.lock == 0 {
            arc_get_mut(&mut self.data)
        } else {
            None
        }
    }
}

/// Reading back a region just written gives the written bytes, and the
/// write succeeds within the new length.
pub proof fn lemma_read_after_write(data: Seq<u8>, buf: Seq<u8>, ofst: int)
    requires
        ofst >= 0,
    ensures
        ofst + buf.len() <= written(data, buf, ofst).len(),
        read_at(written(data, buf, ofst), ofst, buf.len() as int) == buf,
{
    assert(read_at(written(data, buf, ofst), ofst, buf.len() as int) =~= buf);
}

/// A write leaves every byte before `ofst` and after the written region
/// unchanged, and never shrinks the file.
pub proof fn lemma_write_frame(data: Seq<u8>, buf: Seq<u8>, ofst: int, i: int)
    requires
        ofst >= 0,
        0 <= i < data.len(),
        !(ofst <= i < ofst + buf.len()),
    ensures
        written(data, buf, ofst)[i] == data[i],
        written(data, buf, ofst).len() >= data.len(),
{
}

/// Reading any region within the file gives exactly its bytes.
pub proof fn lemma_read_within(data: Seq<u8>, ofst: int, amt: int)
    requires
        0 <= ofst,
        0 <= amt,
        ofst + amt <= data.len(),
    ensures
        read_at(data, ofst, amt) == data.subrange(ofst, ofst + amt),
{
    assert(read_at(data, ofst, amt) =~= data.subrange(ofst, ofst + amt));
}

/// A size-limit request for a limit of zero or more sets the limit to the
/// larger of the request and the file length; a negative request leaves
/// the limit as it was. The limit is never below the length when it was
/// not below it before.
pub proof fn lemma_size_limit_covers_len(limit: int, len: int, size_max: int)
    requires
        0 <= len,
    ensures
        limit >= 0 ==> size_limit_after(limit, len, size_max) == (if limit >= len { limit } else { len }),
        limit < 0 ==> size_limit_after(limit, len, size_max) == size_max,
        len <= size_max ==> size_limit_after(limit, len, size_max) >= len,
{
}

} // verus!
