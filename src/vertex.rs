//! Vertex layouts: the attributes a vertex type declares and the byte offset
//! at which each of them starts inside one vertex.
use vstd::prelude::*;

verus! {

/// Number of bytes of one component of either attribute type
/// (a 32-bit float or a 32-bit unsigned integer).
pub const COMPONENT_BYTES: u32 = 4;

/// Component type of one vertex attribute.
#[derive(Clone, Copy, Debug, PartialEq, Eq, Structural)]
pub enum VertexAttributeType {
    Float,
    Unsigned,
}

impl VertexAttributeType {
    pub open spec fn spec_size(self) -> nat {
        COMPONENT_BYTES as nat
    }

    /// Size in bytes of one component of this type.
    pub fn size(&self) -> (r: u32)
        ensures
            r == self.spec_size(),
    {
        COMPONENT_BYTES
    }
}

/// One attribute of a vertex type: its name in the shader, the number of
/// components and their type.
#[derive(Clone, Debug)]
pub struct VertexAttribute {
    pub name: String,
    pub count: u32,
    pub kind: VertexAttributeType,
}

/// Bytes that an attribute occupies inside one vertex.
pub open spec fn attribute_bytes(a: VertexAttribute) -> nat {
    a.count as nat * a.kind.spec_size()
}

/// Bytes occupied by a sequence of attributes laid out one after another;
/// for a prefix of the attributes, the offset of the next one.
pub open spec fn layout_bytes(attrs: Seq<VertexAttribute>) -> nat
    decreases attrs.len(),
{
    if attrs.len() == 0 {
        0
    } else {
        layout_bytes(attrs.drop_last()) + attribute_bytes(attrs.last())
    }
}

/// Byte offset of the attribute at `i`: the sum of the sizes of those before it.
pub open spec fn attribute_offset(attrs: Seq<VertexAttribute>, i: int) -> nat {
    layout_bytes(attrs.take(i))
}

/// A vertex type: its stride in bytes and its attributes in memory order.
pub trait Vertex {
    fn stride() -> usize;

    fn attributes() -> Vec<VertexAttribute>;
}

/// Where the driver is told to read one attribute from the vertex buffer.
#[derive(Clone, Debug)]
pub struct AttributePointer {
    pub name: String,
    pub count: u32,
    pub kind: VertexAttributeType,
    pub stride: usize,
    pub offset: usize,
}

/// The largest stride the driver takes (a signed 32-bit size).
pub const MAX_STRIDE: usize = 0x7fff_ffff;

/// Whether the attributes fit inside a vertex of the given stride.
pub open spec fn layout_fits(stride: nat, attrs: Seq<VertexAttribute>) -> bool {
    stride <= MAX_STRIDE && layout_bytes(attrs) <= stride
}

/// The pointer that reads attribute `i` of a vertex of the given stride.
pub open spec fn pointer_for(stride: nat, attrs: Seq<VertexAttribute>, i: int) -> AttributePointer {
    AttributePointer {
        name: attrs[i].name,
        count: attrs[i].count,
        kind: attrs[i].kind,
        stride: stride as usize,
        offset: attribute_offset(attrs, i) as usize,
    }
}

/// The size of a sequence only grows when attributes are appended.
pub proof fn lemma_layout_prefix_le(attrs: Seq<VertexAttribute>, i: int)
    requires
        0 <= i <= attrs.len(),
    ensures
        layout_bytes(attrs.take(i)) <= layout_bytes(attrs),
    decreases attrs.len() - i,
{
    if i < attrs.len() {
        lemma_layout_prefix_le(attrs, i + 1);
        assert(attrs.take(i + 1).drop_last() =~= attrs.take(i));
    } else {
        assert(attrs.take(i) =~= attrs);
    }
}

/// Lays the attributes out one after another inside a vertex of `stride`
/// bytes. Fails when the stride is beyond what the driver takes or the
/// attributes do not fit in it; otherwise the pointer of each attribute starts
/// where the previous one ends.
pub fn attribute_layout(stride: usize, attrs: &Vec<VertexAttribute>) -> (r: Option<Vec<AttributePointer>>)
    ensures
        r.is_some() == layout_fits(stride as nat, attrs@),
        r matches Some(p) ==> p@.len() == attrs@.len() && forall|i: int|
            0 <= i < p@.len() ==> #[trigger] p@[i] == pointer_for(stride as nat, attrs@, i),
{
    if stride > MAX_STRIDE {
        return None;
    }
    let mut pointers: Vec<AttributePointer> = Vec::new();
    let mut step: usize = 0;
    let mut i: usize = 0;
    while i < attrs.len()
        invariant
            stride <= MAX_STRIDE,
            i <= attrs@.len(),
            step == layout_bytes(attrs@.take(i as int)),
            step <= stride,
            pointers@.len() == i,
            forall|j: int| 0 <= j < i ==> #[trigger] pointers@[j] == pointer_for(stride as nat, attrs@, j),
        decreases attrs@.len() - i,
    {
        let a = &attrs[i];
        assert(attrs@.take(i + 1).drop_last() =~= attrs@.take(i as int));
        let needed: u64 = a.count as u64 * COMPONENT_BYTES as u64;
        if needed > (stride - step) as u64 {
            proof {
                lemma_layout_prefix_le(attrs@, i + 1);
            }
            return None;
        }
        let bytes: usize = needed as usize;
        pointers.push(AttributePointer {
            name: a.name.clone(),
            count: a.count,
            kind: a.kind,
            stride,
            offset: step,
        });
        step = step + bytes;
        i = i + 1;
    }
    assert(attrs@.take(i as int) =~= attrs@);
    Some(pointers)
}

} // verus!
