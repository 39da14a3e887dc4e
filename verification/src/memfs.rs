//! The in-memory file system behind the `memvfs-rs` VFS: named files whose
//! bytes grow as they are written.

use vstd::prelude::*;
use crate::codes;
use crate::util::str_eq;
use crate::vec_db::written;

verus! {

/// The number of bytes a new file allocates up front.
pub const FS_NODE_INITIAL_SIZE: usize = 8192;

/// One file: `size` bytes of content at the front of an allocation that is
/// zero past them.
#[derive(Debug)]
pub struct Node {
    size: usize,
    data: Vec<u8>,
}

impl View for Node {
    type V = Seq<u8>;

    /// The file's content.
    closed spec fn view(&self) -> Seq<u8> {
        self.data@.take(self.size as int)
    }
}

impl Node {
    #[verifier::type_invariant]
    closed spec fn inv(self) -> bool {
        &&& self.size <= self.data@.len()
        &&& forall|i: int| self.size <= i < self.data@.len() ==> self.data@[i] == 0
    }

    /// An empty file with its initial allocation.
    pub fn new() -> (n: Node)
        ensures
            n@ == Seq::<u8>::empty(),
    {
        let data = vec![0u8; FS_NODE_INITIAL_SIZE];
        Node { size: 0, data }
    }

    /// The content's length.
    pub fn size(&self) -> (n: usize)
        ensures
            n == self@.len(),
    {
        proof {
            use_type_invariant(self);
        }
        self.size
    }

    /// Copies `dst.len()` bytes starting at `offset` into `dst`; `None`,
    /// leaving `dst` alone, when they run past the end of the content.
    pub fn copy_out(&self, dst: &mut [u8], offset: usize) -> (r: Option<()>)
        ensures
            r is Some <==> offset + old(dst)@.len() <= self@.len(),
            r is Some ==> final(dst)@ == self@.subrange(offset as int, offset + old(dst)@.len()),
            r is None ==> final(dst)@ == old(dst)@,
    {
        proof {
            use_type_invariant(self);
        }
        let count = dst.len();
        if self.size < count || self.size - count < offset {
            return None;
        }
        let mut i: usize = 0;
        while i < count
            invariant
                count == dst@.len(),
                offset + count <= self.size,
                self.size <= self.data@.len(),
                i <= count,
                forall|k: int| 0 <= k < i ==> dst@[k] == self.data@[offset + k],
            decreases count - i,
        {
            dst[i] = self.data[offset + i];
            i = i + 1;
        }
        assert(dst@ =~= self@.subrange(offset as int, offset + count));
        Some(())
    }

    /// Writes `src` at `offset`, growing the content (with zeros in any gap)
    /// when the write ends past it.
    pub fn write_in(&mut self, src: &[u8], offset: usize)
        requires
            offset + src@.len() <= usize::MAX,
        ensures
            final(self)@ == written(old(self)@, src@, offset as int),
    {
        proof {
            use_type_invariant(&*self);
        }
        let count = src.len();
        let new_end = offset + count;
        let mut tmp = Node { size: 0, data: Vec::new() };
        std::mem::swap(&mut tmp, self);
        proof {
            use_type_invariant(&tmp);
        }
        let Node { size, mut data } = tmp;
        let ghost old_data = data@;
        if new_end > data.len() {
            data.resize(new_end, 0u8);
        }
        let ghost grown = data@;
        assert forall|k: int| size <= k < grown.len() implies grown[k] == 0 by {
            if k < old_data.len() {
                assert(grown[k] == old_data[k]);
            }
        }
        let mut i: usize = 0;
        while i < count
            invariant
                count == src@.len(),
                new_end == offset + count,
                new_end <= data@.len(),
                data@.len() == grown.len(),
                i <= count,
                forall|k: int| 0 <= k < data@.len() ==> #[trigger] data@[k] == (if offset <= k < offset + i {
                    src@[k - offset]
                } else {
                    grown[k]
                }),
            decreases count - i,
        {
            data.set(offset + i, src[i]);
            i = i + 1;
        }
        let new_size = if new_end > size { new_end } else { size };
        proof {
            let w = written(old_data.take(size as int), src@, offset as int);
            assert forall|k: int| 0 <= k < new_size implies #[trigger] data@[k] == w[k] by {
                if k < size {
                    assert(k < old_data.len());
                    assert(grown[k] == old_data[k]);
                }
            }
            assert(data@.take(new_size as int) =~= w);
            assert forall|k: int| new_size <= k < data@.len() implies data@[k] == 0 by {
                assert(grown[k] == 0);
            }
        }
        *self = Node { size: new_size, data };
    }
}

/// Whether `name` names an entry of the file list.
pub open spec fn has_file(files: Seq<(Seq<char>, Seq<u8>)>, name: Seq<char>) -> bool {
    exists|i: int| 0 <= i < files.len() && #[trigger] files[i].0 == name
}

/// No name occurs twice.
pub open spec fn distinct_names(files: Seq<(Seq<char>, Seq<u8>)>) -> bool {
    forall|i: int, j: int| 0 <= i < j < files.len() ==> #[trigger] files[i].0 != #[trigger] files[j].0
}

/// The content of the file `name`, if there is one.
pub open spec fn content_of(files: Seq<(Seq<char>, Seq<u8>)>, name: Seq<char>) -> Option<Seq<u8>> {
    if has_file(files, name) {
        Some(files[choose|i: int| 0 <= i < files.len() && #[trigger] files[i].0 == name].1)
    } else {
        None
    }
}

/// The files of the in-memory file system, each name at most once.
pub struct MemFs {
    files: Vec<(String, Node)>,
}

impl MemFs {
    /// The files: name and content, in the order they were added.
    pub closed spec fn entries(&self) -> Seq<(Seq<char>, Seq<u8>)> {
        self.files@.map_values(|e: (String, Node)| (e.0@, e.1@))
    }

    #[verifier::type_invariant]
    closed spec fn inv(self) -> bool {
        distinct_names(self.entries())
    }

    /// An empty file system.
    pub fn new() -> (fs: MemFs)
        ensures
            fs.entries() == Seq::<(Seq<char>, Seq<u8>)>::empty(),
    {
        let fs = MemFs { files: Vec::new() };
        assert(fs.entries() =~= Seq::<(Seq<char>, Seq<u8>)>::empty());
        fs
    }

    /// The position of the file `name`, if there is one.
    fn find(&self, name: &str) -> (r: Option<usize>)
        ensures
            r is Some <==> has_file(self.entries(), name@),
            r matches Some(i) ==> i < self.entries().len() && self.entries()[i as int].0 == name@,
    {
        let n = self.files.len();
        let mut i: usize = 0;
        while i < n
            invariant
                n == self.files@.len(),
                i <= n,
                forall|k: int| 0 <= k < i ==> self.entries()[k].0 != name@,
            decreases n - i,
        {
            if str_eq(self.files[i].0.as_str(), name) {
                assert(self.entries()[i as int].0 == name@);
                return Some(i);
            }
            i = i + 1;
        }
        None
    }

    /// Whether a file named `name` exists.
    pub fn file_exists(&self, name: &str) -> (b: bool)
        ensures
            b == has_file(self.entries(), name@),
    {
        self.find(name).is_some()
    }

    /// Adds an empty file named `name`, unless one exists.
    pub fn add_file(&mut self, name: String)
        ensures
            has_file(old(self).entries(), name@) ==> final(self).entries() == old(self).entries(),
            !has_file(old(self).entries(), name@) ==> final(self).entries() == old(self).entries().push(
                (name@, Seq::<u8>::empty()),
            ),
    {
        proof {
            use_type_invariant(&*self);
        }
        if self.file_exists(name.as_str()) {
            return;
        }
        let ghost before = self.entries();
        let mut tmp = MemFs { files: Vec::new() };
        assert(tmp.entries() =~= Seq::<(Seq<char>, Seq<u8>)>::empty());
        std::mem::swap(&mut tmp, self);
        let MemFs { mut files } = tmp;
        let ghost key = name@;
        files.push((name, Node::new()));
        let ghost e = files@.map_values(|e: (String, Node)| (e.0@, e.1@));
        assert(e =~= before.push((key, Seq::<u8>::empty())));
        assert forall|i: int, j: int| 0 <= i < j < e.len() implies #[trigger] e[i].0 != #[trigger] e[j].0 by {
            if j == before.len() {
                assert(e[i] == before[i]);
            }
        }
        let fs = MemFs { files };
        *self = fs;
    }

    /// Removes the file named `name`, if there is one.
    pub fn del_file(&mut self, name: &str)
        ensures
            !has_file(final(self).entries(), name@),
            forall|other: Seq<char>| other != name@ ==> content_of(final(self).entries(), other) == content_of(
                old(self).entries(),
                other,
            ),
    {
        proof {
            use_type_invariant(&*self);
        }
        match self.find(name) {
            None => {},
            Some(i) => {
                let ghost before = self.entries();
                let mut tmp = MemFs { files: Vec::new() };
                assert(tmp.entries() =~= Seq::<(Seq<char>, Seq<u8>)>::empty());
                std::mem::swap(&mut tmp, self);
                let MemFs { mut files } = tmp;
                let _removed = files.remove(i);
                let ghost e = files@.map_values(|e: (String, Node)| (e.0@, e.1@));
                assert(e =~= before.remove(i as int));
                assert forall|a: int, b: int| 0 <= a < b < e.len() implies #[trigger] e[a].0 != #[trigger] e[b].0 by {
                    let a0 = if a < i { a } else { a + 1 };
                    let b0 = if b < i { b } else { b + 1 };
                    assert(e[a] == before[a0]);
                    assert(e[b] == before[b0]);
                }
                let fs = MemFs { files };
                assert(fs.entries() == e);
                assert forall|k: int| 0 <= k < fs.entries().len() implies #[trigger] fs.entries()[k].0 != name@ by {
                    let k0 = if k < i { k } else { k + 1 };
                    assert(fs.entries()[k] == before[k0]);
                }
                assert forall|other: Seq<char>| other != name@ implies content_of(fs.entries(), other) == content_of(
                    before,
                    other,
                ) by {
                    if has_file(before, other) {
                        let k0 = choose|k: int| 0 <= k < before.len() && #[trigger] before[k].0 == other;
                        let k = if k0 < i { k0 } else { k0 - 1 };
                        assert(fs.entries()[k] == before[k0]);
                        assert(has_file(fs.entries(), other));
                        let k1 = choose|k: int| 0 <= k < fs.entries().len() && #[trigger] fs.entries()[k].0 == other;
                        let k1o = if k1 < i { k1 } else { k1 + 1 };
                        assert(fs.entries()[k1] == before[k1o]);
                    }
                    if has_file(fs.entries(), other) {
                        let k1 = choose|k: int| 0 <= k < fs.entries().len() && #[trigger] fs.entries()[k].0 == other;
                        let k1o = if k1 < i { k1 } else { k1 + 1 };
                        assert(fs.entries()[k1] == before[k1o]);
                        assert(has_file(before, other));
                    }
                }
                *self = fs;
            },
        }
    }

    /// The file named `name`, if there is one.
    pub fn get_node(&self, name: &str) -> (r: Option<&Node>)
        ensures
            r is Some <==> has_file(self.entries(), name@),
            r matches Some(node) ==> content_of(self.entries(), name@) == Some(node@),
    {
        proof {
            use_type_invariant(self);
        }
        match self.find(name) {
            Some(i) => {
                proof {
                    let k = choose|k: int| 0 <= k < self.entries().len() && #[trigger] self.entries()[k].0 == name@;
                    assert(k == i);
                }
                Some(&self.files[i].1)
            },
            None => None,
        }
    }

    /// Reads `buf.len()` bytes at `offset` of the file `name` (which must
    /// exist): `SQLITE_OK` with the bytes, or `SQLITE_IOERR_SHORT_READ`,
    /// leaving `buf` alone, when they run past the end.
    pub fn read(&self, name: &str, buf: &mut [u8], offset: usize) -> (rc: i32)
        requires
            has_file(self.entries(), name@),
        ensures
            (rc == codes::SQLITE_OK) == (offset + old(buf)@.len() <= content_of(self.entries(), name@)->0.len()),
            rc == codes::SQLITE_OK || rc == codes::SQLITE_IOERR_SHORT_READ,
            rc == codes::SQLITE_OK ==> final(buf)@ == content_of(self.entries(), name@)->0.subrange(
                offset as int,
                offset + old(buf)@.len(),
            ),
            rc != codes::SQLITE_OK ==> final(buf)@ == old(buf)@,
    {
        match self.get_node(name) {
            Some(node) => {
                if node.copy_out(buf, offset).is_none() {
                    return codes::SQLITE_IOERR_SHORT_READ;
                }
                codes::SQLITE_OK
            },
            None => codes::SQLITE_IOERR_SHORT_READ,
        }
    }

    /// Writes `src` at `offset` of the file `name` (which must exist); the
    /// other files are untouched.
    pub fn write(&mut self, name: &str, src: &[u8], offset: usize) -> (rc: i32)
        requires
            has_file(old(self).entries(), name@),
            offset + src@.len() <= usize::MAX,
        ensures
            rc == codes::SQLITE_OK,
            content_of(final(self).entries(), name@) == Some(
                written(content_of(old(self).entries(), name@)->0, src@, offset as int),
            ),
            forall|other: Seq<char>| other != name@ ==> content_of(final(self).entries(), other) == content_of(
                old(self).entries(),
                other,
            ),
    {
        proof {
            use_type_invariant(&*self);
        }
        let i = match self.find(name) {
            Some(i) => i,
            None => return codes::SQLITE_OK,
        };
        let ghost before = self.entries();
        proof {
            let k = choose|k: int| 0 <= k < before.len() && #[trigger] before[k].0 == name@;
            assert(k == i);
        }
        let mut tmp = MemFs { files: Vec::new() };
        assert(tmp.entries() =~= Seq::<(Seq<char>, Seq<u8>)>::empty());
        std::mem::swap(&mut tmp, self);
        let MemFs { mut files } = tmp;
        let (file_name, mut node) = files.remove(i);
        node.write_in(src, offset);
        let ghost new_content = node@;
        files.insert(i, (file_name, node));
        let ghost e = files@.map_values(|e: (String, Node)| (e.0@, e.1@));
        assert(e =~= before.update(i as int, (name@, new_content)));
        assert forall|a: int, b: int| 0 <= a < b < e.len() implies #[trigger] e[a].0 != #[trigger] e[b].0 by {
            assert(e[a].0 == before[a].0);
            assert(e[b].0 == before[b].0);
        }
        proof {
            assert(e[i as int].0 == name@);
            assert(has_file(e, name@));
            let k = choose|k: int| 0 <= k < e.len() && #[trigger] e[k].0 == name@;
            assert(e[k].0 == before[k].0);
            assert(k == i);
            assert forall|other: Seq<char>| other != name@ implies content_of(e, other) == content_of(before, other) by {
                if has_file(before, other) {
                    let k0 = choose|k: int| 0 <= k < before.len() && #[trigger] before[k].0 == other;
                    assert(e[k0].0 == before[k0].0);
                    assert(has_file(e, other));
                    let k1 = choose|k: int| 0 <= k < e.len() && #[trigger] e[k].0 == other;
                    assert(e[k1].0 == before[k1].0);
                    assert(k1 != i);
                    assert(e[k1] == before[k1]);
                }
                if has_file(e, other) {
                    let k1 = choose|k: int| 0 <= k < e.len() && #[trigger] e[k].0 == other;
                    assert(e[k1].0 == before[k1].0);
                    assert(has_file(before, other));
                }
            }
        }
        *self = MemFs { files };
        codes::SQLITE_OK
    }

    /// The size of the file `name` (which must exist).
    pub fn file_size(&self, name: &str) -> (size: i64)
        requires
            has_file(self.entries(), name@),
        ensures
            size == content_of(self.entries(), name@)->0.len() as i64,
    {
        match self.get_node(name) {
            Some(node) => node.size() as i64,
            None => 0,
        }
    }

    /// Opens the file `name`, creating it empty when it does not exist.
    pub fn open(&mut self, name: String) -> (rc: i32)
        ensures
            rc == codes::SQLITE_OK,
            has_file(final(self).entries(), name@),
            has_file(old(self).entries(), name@) ==> final(self).entries() == old(self).entries(),
            !has_file(old(self).entries(), name@) ==> final(self).entries() == old(self).entries().push(
                (name@, Seq::<u8>::empty()),
            ),
    {
        let ghost key = name@;
        self.add_file(name);
        proof {
            if !has_file(old(self).entries(), key) {
                let n = old(self).entries().len() as int;
                assert(self.entries()[n].0 == key);
            }
        }
        codes::SQLITE_OK
    }
}

/// Reading back what was just written gives the written bytes.
pub proof fn lemma_memfs_read_after_write(content: Seq<u8>, src: Seq<u8>, offset: int)
    requires
        offset >= 0,
    ensures
        offset + src.len() <= written(content, src, offset).len(),
        written(content, src, offset).subrange(offset, offset + src.len()) == src,
{
    assert(written(content, src, offset).subrange(offset, offset + src.len()) =~= src);
}

} // verus!
