//! A growable byte buffer holding a serialized database: the file's bytes
//! and, behind them, capacity that has been allocated but not yet used.

use vstd::prelude::*;

verus! {

/// Memory file with serialized database content. It looks like a
/// `Vec<u8>`: a length, and a capacity that is at least the length.
#[derive(Debug)]
pub struct MemFile {
    data: Vec<u8>,
    len: usize,
}

impl View for MemFile {
    type V = Seq<u8>;

    /// The bytes of the file.
    closed spec fn view(&self) -> Seq<u8> {
        self.data@.take(self.len as int)
    }
}

impl MemFile {
    #[verifier::type_invariant]
    closed spec fn inv(self) -> bool {
        self.len <= self.data@.len()
    }

    /// The number of allocated bytes.
    pub closed spec fn spec_capacity(self) -> nat {
        self.data@.len()
    }

    /// Constructs a new, empty `MemFile` that has allocated nothing.
    pub fn new() -> (m: Self)
        ensures
            m@ == Seq::<u8>::empty(),
            m.spec_capacity() == 0,
    {
        MemFile { data: Vec::new(), len: 0 }
    }

    /// Constructs a new, empty `MemFile` with the specified capacity.
    pub fn with_capacity(capacity: usize) -> (m: Self)
        ensures
            m@ == Seq::<u8>::empty(),
            m.spec_capacity() == capacity,
    {
        let mut file = Self::new();
        file.reserve(capacity);
        file
    }

    /// Moves the contents out, leaving an empty file behind.
    fn take_parts(&mut self) -> (parts: (Vec<u8>, usize))
        ensures
            parts.1 <= parts.0@.len(),
            parts.0@ == old(self).data@,
            parts.1 == old(self).len,
            final(self)@ == Seq::<u8>::empty(),
    {
        proof {
            use_type_invariant(&*self);
        }
        let mut file = MemFile::new();
        std::mem::swap(&mut file, self);
        proof {
            use_type_invariant(&file);
        }
        let MemFile { data, len } = file;
        (data, len)
    }

    /// Resizes the allocation to exactly `cap` bytes, keeping the file's
    /// bytes.
    fn set_capacity(&mut self, cap: usize)
        requires
            old(self)@.len() <= cap,
        ensures
            final(self)@ == old(self)@,
            final(self).spec_capacity() == cap,
    {
        proof {
            use_type_invariant(&*self);
        }
        if self.data.len() == cap {
            return;
        }
        if cap == 0 {
            *self = Self::new();
            return;
        }
        let (mut data, len) = self.take_parts();
        data.resize(cap, 0u8);
        assert(data@.take(len as int) =~= old(self)@);
        *self = MemFile { data, len };
    }

    /// Reserves capacity for at least `additional` more bytes: afterwards
    /// the capacity is at least `len + additional`. Does nothing if the
    /// capacity is already sufficient.
    pub fn reserve(&mut self, additional: usize)
        requires
            old(self)@.len() + additional <= usize::MAX,
        ensures
            final(self)@ == old(self)@,
            old(self)@.len() + additional > old(self).spec_capacity() ==> final(self).spec_capacity() == old(
                self,
            )@.len() + additional,
            old(self)@.len() + additional <= old(self).spec_capacity() ==> final(self).spec_capacity()
                == old(self).spec_capacity(),
    {
        proof {
            use_type_invariant(&*self);
        }
        let new_len = self.len + additional;
        if new_len > self.data.len() {
            self.set_capacity(new_len);
        }
    }

    /// Shrinks the capacity to the length.
    pub fn shrink_to_fit(&mut self)
        ensures
            final(self)@ == old(self)@,
            final(self).spec_capacity() == old(self)@.len(),
    {
        proof {
            use_type_invariant(&*self);
        }
        let len = self.len;
        self.set_capacity(len);
    }

    /// Copies and appends all bytes of `other`.
    pub fn extend_from_slice(&mut self, other: &[u8])
        requires
            old(self)@.len() + other@.len() <= usize::MAX,
        ensures
            final(self)@ == old(self)@ + other@,
            old(self)@.len() + other@.len() > old(self).spec_capacity() ==> final(self).spec_capacity()
                == old(self)@.len() + other@.len(),
            old(self)@.len() + other@.len() <= old(self).spec_capacity() ==> final(self).spec_capacity()
                == old(self).spec_capacity(),
    {
        proof {
            use_type_invariant(&*self);
        }
        let n = other.len();
        self.reserve(n);
        let ghost reserved = self.spec_capacity();
        let (mut data, len) = self.take_parts();
        let mut i: usize = 0;
        while i < n
            invariant
                n == other@.len(),
                i <= n,
                len + n <= usize::MAX,
                len + n <= data@.len(),
                data@.len() == reserved,
                data@.take(len + i) == old(self)@ + other@.take(i as int),
            decreases n - i,
        {
            let ghost prev = data@;
            data.set(len + i, other[i]);
            assert(data@.take(len + i + 1) =~= prev.take(len + i).push(other@[i as int]));
            assert(other@.take(i + 1) =~= other@.take(i as int).push(other@[i as int]));
            assert(data@.take(len + i + 1) =~= old(self)@ + other@.take(i + 1));
            i = i + 1;
        }
        assert(other@.take(n as int) =~= other@);
        *self = MemFile { data, len: len + n };
    }

    /// Appends the bytes of `bytes`, as `Extend<u8>` does.
    pub fn extend(&mut self, bytes: Vec<u8>)
        requires
            old(self)@.len() + bytes@.len() <= usize::MAX,
        ensures
            final(self)@ == old(self)@ + bytes@,
    {
        self.extend_from_slice(bytes.as_slice());
    }

    /// Sets the length of the file. Bytes that come into the file this way
    /// are whatever the allocation held.
    pub fn set_len(&mut self, len: usize)
        requires
            len <= old(self).spec_capacity(),
        ensures
            final(self)@.len() == len,
            final(self).spec_capacity() == old(self).spec_capacity(),
            len <= old(self)@.len() ==> final(self)@ == old(self)@.take(len as int),
            len > old(self)@.len() ==> final(self)@.take(old(self)@.len() as int) == old(self)@,
    {
        proof {
            use_type_invariant(&*self);
        }
        let (data, old_len) = self.take_parts();
        proof {
            if old_len <= len {
                assert(data@.take(len as int).take(old_len as int) =~= data@.take(old_len as int));
            } else {
                assert(data@.take(old_len as int).take(len as int) =~= data@.take(len as int));
            }
        }
        *self = MemFile { data, len };
    }

    /// The number of allocated bytes.
    pub fn capacity(&self) -> (c: usize)
        ensures
            c == self.spec_capacity(),
            self@.len() <= c,
    {
        proof {
            use_type_invariant(self);
        }
        self.data.len()
    }

    /// The length of the file.
    pub fn len(&self) -> (n: usize)
        ensures
            n == self@.len(),
            n <= self.spec_capacity(),
    {
        proof {
            use_type_invariant(self);
        }
        self.len
    }

    /// Whether the file is empty.
    pub fn is_empty(&self) -> (b: bool)
        ensures
            b == (self@.len() == 0),
    {
        self.len() == 0
    }

    /// The byte at `index`.
    pub fn get(&self, index: usize) -> (b: u8)
        requires
            index < self@.len(),
        ensures
            b == self@[index as int],
    {
        proof {
            use_type_invariant(self);
        }
        self.data[index]
    }

    /// Overwrites the byte at `index`.
    pub fn set(&mut self, index: usize, byte: u8)
        requires
            index < old(self)@.len(),
        ensures
            final(self)@ == old(self)@.update(index as int, byte),
            final(self).spec_capacity() == old(self).spec_capacity(),
    {
        proof {
            use_type_invariant(&*self);
        }
        let (mut data, len) = self.take_parts();
        data.set(index, byte);
        assert(data@.take(len as int) =~= old(self)@.update(index as int, byte));
        *self = MemFile { data, len };
    }

    /// A copy of the file's bytes.
    pub fn to_vec(&self) -> (v: Vec<u8>)
        ensures
            v@ == self@,
    {
        proof {
            use_type_invariant(self);
        }
        let mut v: Vec<u8> = Vec::new();
        let mut i: usize = 0;
        while i < self.len
            invariant
                self.len <= self.data@.len(),
                i <= self.len,
                v@ == self.data@.take(i as int),
            decreases self.len - i,
        {
            v.push(self.data[i]);
            assert(v@ =~= self.data@.take(i + 1));
            i = i + 1;
        }
        v
    }
}

impl Clone for MemFile {
    fn clone(&self) -> (c: Self)
        ensures
            c@ == self@,
            c.spec_capacity() == self@.len(),
    {
        proof {
            use_type_invariant(self);
        }
        let mut c = MemFile::new();
        let bytes = self.to_vec();
        c.reserve(bytes.len());
        c.extend_from_slice(bytes.as_slice());
        c
    }
}

impl Default for MemFile {
    fn default() -> (m: Self)
        ensures
            m@ == Seq::<u8>::empty(),
            m.spec_capacity() == 0,
    {
        MemFile::new()
    }
}

/// A byte buffer whose length SQLite may change in place, within its
/// capacity.
pub trait SetLenBytes {
    /// The allocated capacity.
    spec fn capacity_bytes(&self) -> nat;

    /// Sets the length to `new_len`, which must not exceed the capacity.
    fn set_len(&mut self, new_len: usize)
        requires
            new_len <= old(self).capacity_bytes(),
    ;

    /// The allocated capacity.
    fn capacity(&self) -> (c: usize)
        ensures
            c == self.capacity_bytes(),
    ;
}

impl SetLenBytes for MemFile {
    open spec fn capacity_bytes(&self) -> nat {
        self.spec_capacity()
    }

    fn set_len(&mut self, new_len: usize)
        ensures
            final(self)@.len() == new_len,
            final(self).spec_capacity() == old(self).spec_capacity(),
            new_len <= old(self)@.len() ==> final(self)@ == old(self)@.take(new_len as int),
            new_len > old(self)@.len() ==> final(self)@.take(old(self)@.len() as int) == old(self)@,
    {
        MemFile::set_len(self, new_len)
    }

    fn capacity(&self) -> (c: usize) {
        MemFile::capacity(self)
    }
}

} // verus!
