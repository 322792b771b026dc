//! What the GPU buffers of this crate record of the data they were last filled
//! with, and the usage hint each fill passes to the graphics API. The upload itself
//! is made by the caller on its graphics context.

use vstd::prelude::*;

use crate::glenum;

verus! {

/// The record of a buffer of per vertex data: how many values it holds, and the
/// graphics API type and number of components of each.
pub struct BufferRecord {
    attribute_count: u32,
    data_type: u32,
    data_size: u32,
}

impl View for BufferRecord {
    type V = (u32, u32, u32);

    closed spec fn view(&self) -> (u32, u32, u32) {
        (self.attribute_count, self.data_type, self.data_size)
    }
}

impl BufferRecord {
    /// The record of a buffer that was never filled.
    pub fn new() -> (r: BufferRecord)
        ensures
            r@ == (0u32, 0u32, 0u32),
    {
        BufferRecord { attribute_count: 0, data_type: 0, data_size: 0 }
    }

    /// The number of values the buffer holds.
    pub fn attribute_count(&self) -> (r: u32)
        ensures
            r == self@.0,
    {
        self.attribute_count
    }

    /// The graphics API type of each component.
    pub fn data_type(&self) -> (r: u32)
        ensures
            r == self@.1,
    {
        self.data_type
    }

    /// The number of components of each value.
    pub fn data_size(&self) -> (r: u32)
        ensures
            r == self@.2,
    {
        self.data_size
    }

    /// The usage hint for the next fill: a buffer that holds data already is
    /// expected to change again (dynamic), a fresh one is not (static).
    pub fn fill_usage(&self) -> (r: u32)
        ensures
            r == if self@.0 > 0 {
                0x88E8u32
            } else {
                0x88E4u32
            },
    {
        if self.attribute_count > 0 {
            glenum::gl_dynamic_draw()
        } else {
            glenum::gl_static_draw()
        }
    }

    /// Records a fill with `len` values of the given type and number of
    /// components (the count is kept in 32 bits, as the graphics API counts).
    pub fn record_fill(&mut self, len: usize, data_type: u32, data_size: u32)
        ensures
            final(self)@ == (len as u32, data_type, data_size),
    {
        self.attribute_count = len as u32;
        self.data_type = data_type;
        self.data_size = data_size;
    }
}

/// The record of an element (index) buffer: how many indices it holds and their
/// graphics API type.
pub struct ElementBufferRecord {
    count: usize,
    data_type: u32,
}

impl View for ElementBufferRecord {
    type V = (usize, u32);

    closed spec fn view(&self) -> (usize, u32) {
        (self.count, self.data_type)
    }
}

impl ElementBufferRecord {
    /// The record of an element buffer that was never filled.
    pub fn new() -> (r: ElementBufferRecord)
        ensures
            r@ == (0usize, 0u32),
    {
        ElementBufferRecord { count: 0, data_type: 0 }
    }

    /// The usage hint of every fill: indices are not expected to change.
    pub fn fill_usage(&self) -> (r: u32)
        ensures
            r == 0x88E4,
    {
        glenum::gl_static_draw()
    }

    /// Records a fill with `len` indices of the given type.
    pub fn record_fill(&mut self, len: usize, data_type: u32)
        ensures
            final(self)@ == (len, data_type),
    {
        self.count = len;
        self.data_type = data_type;
    }

    /// The number of indices in the buffer.
    pub fn count(&self) -> (r: usize)
        ensures
            r == self@.0,
    {
        self.count
    }

    /// The number of triangles in the buffer: three indices each.
    pub fn triangle_count(&self) -> (r: usize)
        ensures
            r == self@.0 / 3,
    {
        self.count / 3
    }

    /// The graphics API type of the indices.
    pub fn data_type(&self) -> (r: u32)
        ensures
            r == self@.1,
    {
        self.data_type
    }
}

} // verus!
