//! The GPU buffer wrapper: a typed buffer that reallocates only when grown
//! and records how much of it the last upload filled.
//!
//! The CPU side of the buffer is modelled exactly: `size` is the element
//! capacity of the current allocation, `used` the element length of the last
//! upload, `data` the uploaded contents (scalar bit patterns or 32-bit
//! indices). The backend mirrors an allocation for every (`allocated`,
//! `size`) pair and copies `data` into it after each update.

use vstd::prelude::*;

verus! {

/// A GPU-side buffer of 32-bit elements.
#[derive(Debug)]
pub struct MetalBuffer {
    /// Whether a device allocation currently backs this buffer.
    pub allocated: bool,
    /// Element capacity of the current allocation (0 when none was ever made).
    pub size: usize,
    /// Element length of the last upload.
    pub used: usize,
    /// Contents of the last upload.
    pub data: Vec<u32>,
}

impl Clone for MetalBuffer {
    fn clone(&self) -> (r: Self)
        ensures
            r.allocated == self.allocated,
            r.size == self.size,
            r.used == self.used,
            r.data@ == self.data@,
    {
        MetalBuffer {
            allocated: self.allocated,
            size: self.size,
            used: self.used,
            data: self.data.clone(),
        }
    }
}

impl Default for MetalBuffer {
    /// A fresh buffer: no allocation, nothing uploaded.
    fn default() -> (r: Self)
        ensures
            !r.allocated,
            r.size == 0,
            r.used == 0,
            r.data@ =~= Seq::<u32>::empty(),
    {
        MetalBuffer { allocated: false, size: 0, used: 0, data: Vec::new() }
    }
}

impl MetalBuffer {
    /// Whether updating to `len` elements would reallocate: exactly when the
    /// current capacity cannot hold them.
    pub open spec fn spec_would_realloc(self, len: nat) -> bool {
        !self.allocated || (self.size as nat) < len
    }

    /// Upload `data` (single-precision bit patterns). Reallocates, sized to
    /// the data, exactly when the current capacity cannot hold it; then
    /// copies the data in and records the uploaded length.
    pub fn update_with_f32_data(&mut self, data: &Vec<u32>)
        ensures
            final(self).allocated,
            final(self).size == if old(self).spec_would_realloc(data@.len()) {
                data@.len()
            } else {
                old(self).size as nat
            },
            final(self).used == data@.len(),
            final(self).data@ == data@,
    {
        self.update(data)
    }

    /// Upload `data` (32-bit indices). Identical bookkeeping to
    /// `update_with_f32_data`; the element width is the same.
    pub fn update_with_u32_data(&mut self, data: &Vec<u32>)
        ensures
            final(self).allocated,
            final(self).size == if old(self).spec_would_realloc(data@.len()) {
                data@.len()
            } else {
                old(self).size as nat
            },
            final(self).used == data@.len(),
            final(self).data@ == data@,
    {
        self.update(data)
    }

    fn update(&mut self, data: &Vec<u32>)
        ensures
            final(self).allocated,
            final(self).size == if old(self).spec_would_realloc(data@.len()) {
                data@.len()
            } else {
                old(self).size as nat
            },
            final(self).used == data@.len(),
            final(self).data@ == data@,
    {
        if self.size < data.len() {
            self.allocated = false;
        }
        if !self.allocated {
            self.allocated = true;
            self.size = data.len();
        }
        self.data = data.clone();
        self.used = data.len();
    }
}

} // verus!
