//! Vertex declarations: memory layout of vertex data

use vstd::prelude::*;
use crate::enums::{vertex_element_format_size, VertexElementFormat, VertexElementUsage};
use crate::handles::BufferHandle;

verus! {

/// One element of vertex data: where it lies in a vertex and what it holds
#[derive(Debug, Clone, Copy, PartialEq, Eq, Structural)]
pub struct VertexElement {
    pub offset: i32,
    pub vertex_element_format: u32,
    pub vertex_element_usage: u32,
    pub usage_index: i32,
}

/// Memory layout of a vertex: its byte length and its elements
#[derive(Debug, Clone, PartialEq, Eq)]
pub struct VertexDeclaration {
    pub vertex_stride: i32,
    pub element_count: i32,
    pub elements: Vec<VertexElement>,
}

/// A vertex buffer with the layout of its vertices
#[derive(Debug, Clone, PartialEq, Eq)]
pub struct VertexBufferBinding {
    pub vertex_buffer: BufferHandle,
    pub vertex_declaration: VertexDeclaration,
    pub vertex_offset: i32,
    pub instance_frequency: i32,
}

/// Whether the element's format value names a vertex element format
pub open spec fn element_format_valid(e: VertexElement) -> bool {
    VertexElementFormat::decode(e.vertex_element_format) is Some
}

/// One past the last byte of the element: its offset, read as unsigned, plus its size
pub open spec fn element_end(e: VertexElement) -> int {
    (e.offset as u32) + vertex_element_format_size(
        VertexElementFormat::decode(e.vertex_element_format).unwrap(),
    )
}

/// The stride of a list of elements: the largest element end
pub open spec fn is_stride_of(stride: int, elems: Seq<VertexElement>) -> bool {
    &&& forall|i: int| 0 <= i < elems.len() ==> element_end(#[trigger] elems[i]) <= stride
    &&& exists|i: int| 0 <= i < elems.len() && element_end(#[trigger] elems[i]) == stride
}

/// Helpers to build vertex elements
pub struct VertexElementUtils {}

impl VertexElementUtils {
    /// Element at the given byte offset with the given format and usage
    pub fn new(
        offset: i32,
        format: VertexElementFormat,
        usage: VertexElementUsage,
        usage_index: i32,
    ) -> (r: VertexElement)
        ensures
            r == (VertexElement {
                offset,
                vertex_element_format: format.code(),
                vertex_element_usage: usage.code(),
                usage_index,
            }),
    {
        VertexElement {
            offset,
            vertex_element_format: format.to_u32(),
            vertex_element_usage: usage.to_u32(),
            usage_index,
        }
    }
}

/// Helpers to build vertex declarations
#[derive(Debug, Clone)]
pub struct VertexDeclarationUtils {}

impl VertexDeclarationUtils {
    /// Declaration of a vertex made of the given elements; its stride is the largest element
    /// end. There has to be an element, every format value has to name a format, and every
    /// element end has to fit in 32 bits.
    pub fn from_elems(elems: &[VertexElement]) -> (r: VertexDeclaration)
        requires
            elems@.len() > 0,
            forall|i: int| 0 <= i < elems@.len() ==> element_format_valid(#[trigger] elems@[i]),
            forall|i: int| 0 <= i < elems@.len() ==> element_end(#[trigger] elems@[i]) <= u32::MAX,
        ensures
            exists|stride: u32|
                is_stride_of(stride as int, elems@) && r.vertex_stride == stride as i32,
            r.element_count == elems@.len() as u32 as i32,
            r.elements@ == elems@,
    {
        let stride = Self::elem_stride(elems);
        let mut elements: Vec<VertexElement> = Vec::new();
        let mut i: usize = 0;
        while i < elems.len()
            invariant
                i <= elems@.len(),
                elements@ == elems@.subrange(0, i as int),
            decreases elems@.len() - i,
        {
            elements.push(elems[i]);
            i = i + 1;
        }
        assert(elements@ == elems@);
        VertexDeclaration {
            vertex_stride: stride as i32,
            element_count: elems.len() as u32 as i32,
            elements,
        }
    }

    /// Length of the vertex data: the largest element end
    fn elem_stride(elems: &[VertexElement]) -> (r: u32)
        requires
            elems@.len() > 0,
            forall|i: int| 0 <= i < elems@.len() ==> element_format_valid(#[trigger] elems@[i]),
            forall|i: int| 0 <= i < elems@.len() ==> element_end(#[trigger] elems@[i]) <= u32::MAX,
        ensures
            is_stride_of(r as int, elems@),
    {
        let first = elems[0];
        assert(element_format_valid(elems@[0]));
        assert(element_end(elems@[0]) <= u32::MAX);
        let mut best: u32 = first.offset as u32 + Self::size(first.vertex_element_format) as u32;
        let mut i: usize = 1;
        while i < elems.len()
            invariant
                1 <= i <= elems@.len(),
                forall|k: int| 0 <= k < elems@.len() ==> element_format_valid(#[trigger] elems@[k]),
                forall|k: int| 0 <= k < elems@.len() ==> element_end(#[trigger] elems@[k]) <= u32::MAX,
                forall|k: int| 0 <= k < i ==> element_end(#[trigger] elems@[k]) <= best,
                exists|k: int| 0 <= k < i && element_end(#[trigger] elems@[k]) == best,
            decreases elems@.len() - i,
        {
            let e = elems[i];
            assert(element_format_valid(elems@[i as int]));
            assert(element_end(elems@[i as int]) <= u32::MAX);
            let end: u32 = e.offset as u32 + Self::size(e.vertex_element_format) as u32;
            if end > best {
                best = end;
            }
            i = i + 1;
        }
        best
    }

    /// Byte size of the format with this value; the value has to name a format
    fn size(format_raw: u32) -> (r: u8)
        requires
            VertexElementFormat::decode(format_raw) is Some,
        ensures
            r == vertex_element_format_size(VertexElementFormat::decode(format_raw).unwrap()),
    {
        VertexElementFormat::from_u32(format_raw).unwrap().size()
    }
}

} // verus!
