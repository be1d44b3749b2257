use vstd::prelude::*;

use crate::error::GfxError;

verus! {

/// How a vertex attribute reads its buffer: `size` components per vertex,
/// tightly packed (`stride` and `offset` are zero).
#[derive(Clone, Copy, Debug, PartialEq, Eq, Structural)]
pub struct AttributePointer {
    pub location: u32,
    pub size: i32,
    pub stride: i32,
    pub offset: i32,
}

/// A device buffer `B` that was filled once and feeds one vertex attribute.
pub struct Buffer<B> {
    buffer: B,
    location: u32,
    num_components: i32,
    vertex_count: usize,
}

/// A vertex attribute reads one to four components per vertex.
pub open spec fn valid_components(num_components: i32) -> bool {
    1 <= num_components <= 4
}

impl<B> Buffer<B> {
    pub closed spec fn handle_spec(&self) -> B {
        self.buffer
    }

    pub closed spec fn location_spec(&self) -> u32 {
        self.location
    }

    pub closed spec fn components_spec(&self) -> i32 {
        self.num_components
    }

    pub closed spec fn vertex_count_spec(&self) -> usize {
        self.vertex_count
    }

    pub closed spec fn wf(&self) -> bool {
        valid_components(self.num_components)
    }

    /// Describes `buffer`, holding `data`, as the source of attribute
    /// `location` with `num_components` values per vertex.
    pub fn new<T>(buffer: B, location: u32, num_components: i32, data: &[T]) -> (r: Result<
        Self,
        GfxError,
    >)
        ensures
            r is Ok <==> valid_components(num_components) && (data@.len() as int) % (num_components as int)
                == 0,
            r matches Ok(b) ==> {
                &&& b.wf()
                &&& b.handle_spec() == buffer
                &&& b.location_spec() == location
                &&& b.components_spec() == num_components
                &&& b.vertex_count_spec() == (data@.len() as int) / (num_components as int)
            },
            !valid_components(num_components) ==> (r matches Err(e)
                && e matches GfxError::InvalidComponentCount { components }
                && components == num_components),
            valid_components(num_components) && (data@.len() as int) % (num_components as int) != 0 ==> (r matches Err(e)
                && e matches GfxError::PartialVertex { len, components }
                && len == data@.len() && components == num_components),
    {
        if num_components < 1 || num_components > 4 {
            return Err(GfxError::InvalidComponentCount { components: num_components });
        }
        let n = num_components as usize;
        let len = data.len();
        if len % n != 0 {
            return Err(GfxError::PartialVertex { len, components: num_components });
        }
        Ok(Buffer { buffer, location, num_components, vertex_count: len / n })
    }

    pub fn handle(&self) -> (r: &B)
        ensures
            *r == self.handle_spec(),
    {
        &self.buffer
    }

    /// The number of whole vertices the buffer holds.
    pub fn vertex_count(&self) -> (r: usize)
        ensures
            r == self.vertex_count_spec(),
    {
        self.vertex_count
    }

    /// The layout to hand to the driver for this buffer's attribute.
    pub fn set_attribute_ptr(&self) -> (r: AttributePointer)
        ensures
            r == (AttributePointer {
                location: self.location_spec(),
                size: self.components_spec(),
                stride: 0,
                offset: 0,
            }),
    {
        AttributePointer { location: self.location, size: self.num_components, stride: 0, offset: 0 }
    }
}

} // verus!
