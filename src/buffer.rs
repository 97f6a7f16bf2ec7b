//! The host half of a device buffer: the host mirror of an accelerator
//! allocation and the flag that says the device holds newer data.
//!
//! The transfers themselves are made by the caller; these methods decide
//! when one is due and keep the mirror in step with it.
use vstd::prelude::*;

verus! {

/// Why a buffer could not be made.
#[derive(Clone, Copy, PartialEq, Eq, Debug, Structural)]
pub enum BufferError {
    /// A buffer was to be built from no data.
    EmptyData,
}

/// What a write to the mirror asks of the caller.
#[derive(Clone, Copy, PartialEq, Eq, Debug, Structural)]
pub enum Transfer {
    /// Nothing is to be sent.
    Skip,
    /// The mirror is to be sent to the device.
    Upload,
}

/// Host mirror of a device buffer, never empty, with its dirty flag.
pub struct HostBuffer<T> {
    data: Vec<T>,
    dirty: bool,
}

/// `n` copies of `v`.
pub open spec fn filled<T>(n: nat, v: T) -> Seq<T> {
    Seq::new(n, |i: int| v)
}

impl<T> HostBuffer<T> {
    #[verifier::type_invariant]
    spec fn inv(&self) -> bool {
        self.data@.len() >= 1
    }

    /// What the mirror holds.
    pub closed spec fn contents(&self) -> Seq<T> {
        self.data@
    }

    /// Whether the device holds data newer than the mirror.
    pub closed spec fn is_dirty(&self) -> bool {
        self.dirty
    }
}

impl<T: Copy> HostBuffer<T> {
    /// A mirror of `max(size, 1)` copies of `fill`, clean.
    pub fn new(size: usize, fill: T) -> (r: Self)
        ensures
            r.contents() == filled(if size == 0 { 1 } else { size as nat }, fill),
            !r.is_dirty(),
    {
        let n: usize = if size == 0 {
            1
        } else {
            size
        };
        let mut data: Vec<T> = Vec::new();
        let mut i: usize = 0;
        while i < n
            invariant
                i <= n,
                data@ == filled(i as nat, fill),
            decreases n - i,
        {
            data.push(fill);
            i = i + 1;
            assert(data@ =~= filled(i as nat, fill));
        }
        HostBuffer { data, dirty: false }
    }

    /// A mirror that holds `data`, clean; an error when `data` is empty.
    pub fn from(data: Vec<T>) -> (r: Result<Self, BufferError>)
        ensures
            r.is_err() <==> data@.len() == 0,
            r matches Err(e) ==> e == BufferError::EmptyData,
            r matches Ok(b) ==> b.contents() == data@ && !b.is_dirty(),
    {
        if data.len() == 0 {
            return Err(BufferError::EmptyData);
        }
        Ok(HostBuffer { data, dirty: false })
    }

    /// Number of elements, at least 1.
    pub fn len(&self) -> (r: usize)
        ensures
            r == self.contents().len(),
            r >= 1,
    {
        proof {
            use_type_invariant(self);
        }
        self.data.len()
    }

    /// The mirror's elements.
    pub fn get_slice(&self) -> (r: &[T])
        ensures
            r@ == self.contents(),
    {
        self.data.as_slice()
    }

    /// Takes new data for the whole buffer. When its length differs from the
    /// buffer's, nothing changes and nothing is to be sent; otherwise the
    /// mirror takes the data and is to be uploaded.
    pub fn upload_new(&mut self, data: &[T]) -> (r: Transfer)
        ensures
            data@.len() != old(self).contents().len() ==> r == Transfer::Skip && *final(self)
                == *old(self),
            data@.len() == old(self).contents().len() ==> {
                &&& r == Transfer::Upload
                &&& final(self).contents() == data@
                &&& final(self).is_dirty() == old(self).is_dirty()
            },
    {
        proof {
            use_type_invariant(&*self);
        }
        let n: usize = self.data.len();
        if data.len() != n {
            return Transfer::Skip;
        }
        let mut fresh: Vec<T> = Vec::new();
        let mut i: usize = 0;
        while i < n
            invariant
                n == data@.len(),
                i <= n,
                fresh@ == data@.subrange(0, i as int),
            decreases n - i,
        {
            fresh.push(data[i]);
            i = i + 1;
            assert(fresh@ =~= data@.subrange(0, i as int));
        }
        assert(fresh@ =~= data@);
        self.data = fresh;
        Transfer::Upload
    }

    /// Records that a kernel wrote the device buffer.
    pub fn mark_dirty(&mut self)
        ensures
            final(self).contents() == old(self).contents(),
            final(self).is_dirty(),
        no_unwind
    {
        proof {
            use_type_invariant(&*self);
        }
        self.dirty = true;
    }

    /// Whether the device holds data that the mirror lacks.
    pub fn needs_download(&self) -> (r: bool)
        ensures
            r == self.is_dirty(),
    {
        self.dirty
    }

    /// Takes what a download brought: the mirror holds it and is clean.
    pub fn downloaded(&mut self, data: Vec<T>)
        requires
            data@.len() == old(self).contents().len(),
        ensures
            final(self).contents() == data@,
            !final(self).is_dirty(),
        no_unwind
    {
        proof {
            use_type_invariant(&*self);
        }
        self.data = data;
        self.dirty = false;
    }
}

} // verus!
