//! A read-only in-memory file of the in-memory VFS.

use vstd::prelude::*;
use std::sync::Arc;
use crate::codes;
use crate::vfs::{Error, IoCapabilities, AtomicWrite, LockLevel, FileType, OpenFile, VfsPath};

verus! {

/// A read-only file in the in-memory VFS.
pub struct MemFile {
    data: Arc<Vec<u8>>,
}

impl MemFile {
    /// The bytes of the file.
    pub closed spec fn bytes(&self) -> Seq<u8> {
        (*self.data)@
    }

    /// A file with the given shared contents.
    pub fn new(data: Arc<Vec<u8>>) -> (f: MemFile)
        ensures
            f.bytes() == (*data)@,
    {
        MemFile { data }
    }

    /// Reads at `offset` into `buf`: copies the bytes that exist there and
    /// returns their number (0 at or past the end); the rest of `buf` is
    /// left as it was.
    pub fn read_at(&self, buf: &mut [u8], offset: u64) -> (r: Result<usize, Error>)
        ensures
            ({
                let len = self.bytes().len();
                let n = if offset >= len { 0 } else if offset + old(buf)@.len() <= len { old(buf)@.len() as int } else { len - offset };
                &&& r == Ok::<usize, Error>(n as usize)
                &&& final(buf)@.len() == old(buf)@.len()
                &&& forall|i: int| 0 <= i < n ==> final(buf)@[i] == self.bytes()[offset + i]
                &&& forall|i: int| n <= i < old(buf)@.len() ==> final(buf)@[i] == old(buf)@[i]
            }),
    {
        let data: &Vec<u8> = &*self.data;
        let len = data.len();
        if offset >= len as u64 {
            return Ok(0);
        }
        let off = offset as usize;
        let end = if buf.len() <= len - off { off + buf.len() } else { len };
        let bytes_read = end - off;
        let mut i: usize = 0;
        while i < bytes_read
            invariant
                bytes_read <= old(buf)@.len(),
                buf@.len() == old(buf)@.len(),
                off + bytes_read <= len,
                len == data@.len(),
                data@ == self.bytes(),
                i <= bytes_read,
                forall|j: int| 0 <= j < i ==> buf@[j] == data@[off + j],
                forall|j: int| i <= j < buf@.len() ==> buf@[j] == old(buf)@[j],
            decreases bytes_read - i,
        {
            buf[i] = data[off + i];
            i = i + 1;
        }
        Ok(bytes_read)
    }

    /// Writing is refused: the file is read-only.
    pub fn write_at(&mut self, buf: &[u8], offset: u64) -> (r: Result<(), Error>)
        ensures
            r == Err::<(), Error>(Error { extended_code: codes::SQLITE_IOERR_WRITE }),
            final(self).bytes() == old(self).bytes(),
    {
        Err(Error::new(codes::SQLITE_IOERR_WRITE))
    }

    /// Truncating is refused: the file is read-only.
    pub fn truncate(&mut self, size: u64) -> (r: Result<(), Error>)
        ensures
            r == Err::<(), Error>(Error { extended_code: codes::SQLITE_IOERR_WRITE }),
            final(self).bytes() == old(self).bytes(),
    {
        Err(Error::new(codes::SQLITE_IOERR_WRITE))
    }

    /// The length of the file.
    pub fn len(&self) -> (r: Result<u64, Error>)
        ensures
            r == Ok::<u64, Error>(self.bytes().len() as u64),
    {
        Ok((*self.data).len() as u64)
    }

    /// Locking always succeeds: nothing can write the file.
    pub fn lock(&mut self, level: LockLevel) -> (r: Result<(), Error>)
        ensures
            r is Ok,
    {
        Ok(())
    }

    /// No write lock is ever held.
    pub fn is_write_locked(&self) -> (r: Result<bool, Error>)
        ensures
            r == Ok::<bool, Error>(false),
    {
        Ok(false)
    }

    /// The file is immutable and allows sub-page reads.
    pub fn io_capabilities(&self) -> (c: IoCapabilities)
        ensures
            c == (IoCapabilities {
                atomic_write: AtomicWrite::Never,
                safe_append: false,
                sequential: false,
                undeletable_when_open: false,
                powersafe_overwrite: false,
                immutable: true,
                batch_atomic: false,
                subpage_read: true,
            }),
    {
        IoCapabilities {
            atomic_write: AtomicWrite::Never,
            safe_append: false,
            sequential: false,
            undeletable_when_open: false,
            powersafe_overwrite: false,
            immutable: true,
            batch_atomic: false,
            subpage_read: true,
        }
    }

    /// The file is never locked.
    pub fn lock_level(&self) -> (l: LockLevel)
        ensures
            l == LockLevel::Unlocked,
    {
        LockLevel::Unlocked
    }
}

/// `Arc::clone`: another handle to the same contents.
#[verifier::external_body]
fn arc_clone(a: &Arc<Vec<u8>>) -> (r: Arc<Vec<u8>>)
    ensures
        *r == **a,
{
    Arc::clone(a)
}

/// Compares two byte strings.
fn bytes_eq(a: &[u8], b: &[u8]) -> (r: bool)
    ensures
        r == (a@ == b@),
{
    if a.len() != b.len() {
        return false;
    }
    let mut i: usize = 0;
    while i < a.len()
        invariant
            a@.len() == b@.len(),
            i <= a@.len(),
            forall|j: int| 0 <= j < i ==> a@[j] == b@[j],
        decreases a@.len() - i,
    {
        if a[i] != b[i] {
            return false;
        }
        i = i + 1;
    }
    assert(a@ =~= b@);
    true
}

/// Whether `name` names one of the files.
pub open spec fn has_name(files: Seq<(Seq<u8>, Seq<u8>)>, name: Seq<u8>) -> bool {
    exists|i: int| 0 <= i < files.len() && #[trigger] files[i].0 == name
}

/// The contents of the file `name`, if there is one.
pub open spec fn contents_of(files: Seq<(Seq<u8>, Seq<u8>)>, name: Seq<u8>) -> Option<Seq<u8>> {
    if has_name(files, name) {
        Some(files[choose|i: int| 0 <= i < files.len() && #[trigger] files[i].0 == name].1)
    } else {
        None
    }
}

/// The name of a main database file to open; other kinds of file have
/// none.
pub open spec fn main_db_name(f: FileType) -> Option<Seq<u8>> {
    match f {
        FileType::MainDb(p) => Some(p.0@),
        _ => None,
    }
}

/// A read-only in-memory VFS: named files whose contents are shared with
/// the files opened on them.
pub struct MemVfs {
    files: Vec<(Vec<u8>, Arc<Vec<u8>>)>,
}

impl MemVfs {
    /// The files: name and contents.
    pub closed spec fn entries(&self) -> Seq<(Seq<u8>, Seq<u8>)> {
        self.files@.map_values(|e: (Vec<u8>, Arc<Vec<u8>>)| (e.0@, (*e.1)@))
    }

    #[verifier::type_invariant]
    closed spec fn inv(self) -> bool {
        forall|i: int, j: int| 0 <= i < j < self.entries().len() ==> #[trigger] self.entries()[i].0
            != #[trigger] self.entries()[j].0
    }

    /// An empty VFS.
    pub fn new() -> (v: MemVfs)
        ensures
            v.entries() == Seq::<(Seq<u8>, Seq<u8>)>::empty(),
    {
        let v = MemVfs { files: Vec::new() };
        assert(v.entries() =~= Seq::<(Seq<u8>, Seq<u8>)>::empty());
        v
    }

    /// The position of the file `name`, if there is one.
    fn find(&self, name: &[u8]) -> (r: Option<usize>)
        ensures
            r is Some <==> has_name(self.entries(), name@),
            r matches Some(i) ==> i < self.entries().len() && self.entries()[i as int].0 == name@,
    {
        let n = self.files.len();
        let mut i: usize = 0;
        while i < n
            invariant
                n == self.files@.len(),
                i <= n,
                forall|k: int| 0 <= k < i ==> self.entries()[k].0 != name@,
            decreases n - i,
        {
            if bytes_eq(self.files[i].0.as_slice(), name) {
                assert(self.entries()[i as int].0 == name@);
                return Some(i);
            }
            i = i + 1;
        }
        None
    }

    /// Adds a file named `name` with contents `data`, replacing a file of
    /// that name.
    pub fn add_file(&mut self, name: Vec<u8>, data: Vec<u8>)
        ensures
            contents_of(final(self).entries(), name@) == Some(data@),
            forall|other: Seq<u8>| other != name@ ==> contents_of(final(self).entries(), other) == contents_of(
                old(self).entries(),
                other,
            ),
    {
        let ghost key = name@;
        let ghost contents = data@;
        self.remove_file(name.as_slice());
        proof {
            use_type_invariant(&*self);
        }
        let ghost before = self.entries();
        let mut tmp = MemVfs { files: Vec::new() };
        assert(tmp.entries() =~= Seq::<(Seq<u8>, Seq<u8>)>::empty());
        std::mem::swap(&mut tmp, self);
        let MemVfs { mut files } = tmp;
        files.push((name, Arc::new(data)));
        let ghost e = files@.map_values(|e: (Vec<u8>, Arc<Vec<u8>>)| (e.0@, (*e.1)@));
        assert(e =~= before.push((key, contents)));
        assert forall|i: int, j: int| 0 <= i < j < e.len() implies #[trigger] e[i].0 != #[trigger] e[j].0 by {
            if j == before.len() {
                assert(e[i] == before[i]);
                assert(before[i].0 != key);
            }
        }
        proof {
            let n = before.len() as int;
            assert(e[n].0 == key);
            assert(has_name(e, key));
            let k = choose|k: int| 0 <= k < e.len() && #[trigger] e[k].0 == key;
            assert(k == n);
            assert forall|other: Seq<u8>| other != key implies contents_of(e, other) == contents_of(before, other) by {
                if has_name(before, other) {
                    let k0 = choose|k: int| 0 <= k < before.len() && #[trigger] before[k].0 == other;
                    assert(e[k0] == before[k0]);
                    assert(has_name(e, other));
                    let k1 = choose|k: int| 0 <= k < e.len() && #[trigger] e[k].0 == other;
                    assert(k1 < n);
                    assert(e[k1] == before[k1]);
                }
                if has_name(e, other) {
                    let k1 = choose|k: int| 0 <= k < e.len() && #[trigger] e[k].0 == other;
                    assert(k1 < n);
                    assert(e[k1] == before[k1]);
                    assert(has_name(before, other));
                }
            }
        }
        *self = MemVfs { files };
    }

    /// Removes the file named `name`, if there is one.
    pub fn remove_file(&mut self, name: &[u8])
        ensures
            !has_name(final(self).entries(), name@),
            forall|other: Seq<u8>| other != name@ ==> contents_of(final(self).entries(), other) == contents_of(
                old(self).entries(),
                other,
            ),
    {
        proof {
            use_type_invariant(&*self);
        }
        match self.find(name) {
            None => {},
            Some(i) => {
                let ghost before = self.entries();
                let mut tmp = MemVfs { files: Vec::new() };
                assert(tmp.entries() =~= Seq::<(Seq<u8>, Seq<u8>)>::empty());
                std::mem::swap(&mut tmp, self);
                let MemVfs { mut files } = tmp;
                let _removed = files.remove(i);
                let ghost e = files@.map_values(|e: (Vec<u8>, Arc<Vec<u8>>)| (e.0@, (*e.1)@));
                assert(e =~= before.remove(i as int));
                assert forall|a: int, b: int| 0 <= a < b < e.len() implies #[trigger] e[a].0 != #[trigger] e[b].0 by {
                    let a0 = if a < i { a } else { a + 1 };
                    let b0 = if b < i { b } else { b + 1 };
                    assert(e[a] == before[a0]);
                    assert(e[b] == before[b0]);
                }
                assert forall|k: int| 0 <= k < e.len() implies #[trigger] e[k].0 != name@ by {
                    let k0 = if k < i { k } else { k + 1 };
                    assert(e[k] == before[k0]);
                }
                assert forall|other: Seq<u8>| other != name@ implies contents_of(e, other) == contents_of(before, other) by {
                    if has_name(before, other) {
                        let k0 = choose|k: int| 0 <= k < before.len() && #[trigger] before[k].0 == other;
                        let k = if k0 < i { k0 } else { k0 - 1 };
                        assert(e[k] == before[k0]);
                        assert(has_name(e, other));
                        let k1 = choose|k: int| 0 <= k < e.len() && #[trigger] e[k].0 == other;
                        let k1o = if k1 < i { k1 } else { k1 + 1 };
                        assert(e[k1] == before[k1o]);
                    }
                    if has_name(e, other) {
                        let k1 = choose|k: int| 0 <= k < e.len() && #[trigger] e[k].0 == other;
                        let k1o = if k1 < i { k1 } else { k1 + 1 };
                        assert(e[k1] == before[k1o]);
                        assert(has_name(before, other));
                    }
                }
                *self = MemVfs { files };
            },
        }
    }

    /// Opens the main database file `name` read-only; anything else, or a
    /// name without a file, is `SQLITE_CANTOPEN`.
    pub fn open(&self, file: FileType) -> (r: Result<OpenFile<MemFile>, Error>)
        ensures
            main_db_name(file) is Some && has_name(self.entries(), main_db_name(file)->0) ==> (r matches Ok(o)
                && o.readonly && Some(o.file.bytes()) == contents_of(self.entries(), main_db_name(file)->0)),
            !(main_db_name(file) is Some && has_name(self.entries(), main_db_name(file)->0)) ==> r == Err::<
                OpenFile<MemFile>,
                Error,
            >(Error { extended_code: codes::SQLITE_CANTOPEN }),
    {
        proof {
            use_type_invariant(self);
        }
        let name = match file {
            FileType::MainDb(name) => name,
            _ => return Err(Error::new(codes::SQLITE_CANTOPEN)),
        };
        match self.find(name.as_bytes()) {
            Some(i) => {
                proof {
                    let k = choose|k: int| 0 <= k < self.entries().len() && #[trigger] self.entries()[k].0 == name.0@;
                    assert(k == i);
                }
                let data = arc_clone(&self.files[i].1);
                Ok(OpenFile::new(MemFile::new(data)).readonly())
            },
            None => Err(Error::new(codes::SQLITE_CANTOPEN)),
        }
    }

    /// Deleting is a no-op.
    pub fn delete(&self, name: VfsPath, sync_dir: bool) -> (r: Result<(), Error>)
        ensures
            r is Ok,
    {
        Ok(())
    }

    /// Whether a file named `name` exists.
    pub fn file_exists(&self, name: VfsPath) -> (r: Result<bool, Error>)
        ensures
            r == Ok::<bool, Error>(has_name(self.entries(), name.0@)),
    {
        Ok(self.find(name.as_bytes()).is_some())
    }

    /// Whether a file named `name` can be read: whether it exists.
    pub fn can_read(&self, name: VfsPath) -> (r: Result<bool, Error>)
        ensures
            r == Ok::<bool, Error>(has_name(self.entries(), name.0@)),
    {
        Ok(self.find(name.as_bytes()).is_some())
    }

    /// Nothing can be written.
    pub fn can_write(&self, name: VfsPath) -> (r: Result<bool, Error>)
        ensures
            r == Ok::<bool, Error>(false),
    {
        Ok(false)
    }

    /// Writes the name, as its full path, into `out`, as much as fits, and
    /// returns the number of bytes written.
    pub fn write_full_path(&self, name: VfsPath, out: &mut [u8]) -> (r: Result<usize, Error>)
        ensures
            ({
                let n = if name.0@.len() <= old(out)@.len() { name.0@.len() } else { old(out)@.len() };
                &&& r == Ok::<usize, Error>(n as usize)
                &&& final(out)@ == name.0@.take(n as int) + old(out)@.skip(n as int)
            }),
    {
        let src = name.as_bytes();
        let n = if src.len() <= out.len() { src.len() } else { out.len() };
        let mut i: usize = 0;
        while i < n
            invariant
                n <= src@.len(),
                n <= old(out)@.len(),
                out@.len() == old(out)@.len(),
                i <= n,
                forall|j: int| 0 <= j < i ==> out@[j] == src@[j],
                forall|j: int| i <= j < out@.len() ==> out@[j] == old(out)@[j],
            decreases n - i,
        {
            out[i] = src[i];
            i = i + 1;
        }
        assert(out@ =~= src@.take(n as int) + old(out)@.skip(n as int));
        Ok(n)
    }

    /// The VFS keeps no error number.
    pub fn last_error(&self) -> (e: i32)
        ensures
            e == 0,
    {
        0
    }
}

} // verus!
