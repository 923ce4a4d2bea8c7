//! Draw submission: everything a single draw call hands to the driver, in
//! the order it is handed over, together with the viewport and clear queries.
use vstd::prelude::*;
use crate::program::{Program, Uniform};
use crate::vertex::{
    AttributePointer, Vertex, VertexAttribute, attribute_bytes, attribute_layout, layout_bytes,
    layout_fits, lemma_layout_prefix_le, pointer_for,
};

verus! {

/// A vertex array object and the buffer object that feeds it.
pub type VertexBuffer = (u32, u32);

/// The most vertices one draw call can name (a signed 32-bit count).
pub const MAX_DRAW_VERTICES: usize = 0x7fff_ffff;

/// What the driver is given for one uniform at draw time.
#[derive(Clone, Copy, Debug, PartialEq, Eq, Structural)]
pub enum BoundValue {
    /// The bit patterns of a two-component float vector.
    Vec2(u32, u32),
    /// A sampler: `texture` is bound to texture unit `unit`, and the uniform
    /// is set to `unit`.
    TextureUnit { unit: u32, texture: u32 },
}

/// One uniform as resolved by name and set at draw time.
#[derive(Clone, Debug)]
pub struct UniformBinding {
    pub name: String,
    pub value: BoundValue,
}

/// Why a draw call was not issued.
#[derive(Clone, Copy, Debug, PartialEq, Eq, Structural)]
pub enum RenderError {
    /// More vertices, or more vertex bytes, than one draw call can name.
    TooManyVertices,
    /// More texture uniforms than the driver has texture units.
    TextureUnitOverflow,
    /// The declared attributes do not fit in the declared stride.
    LayoutMismatch,
}

/// Everything one draw call does, in order: enable source-alpha blending,
/// bind `vertex_array`, upload `upload_bytes` bytes of vertices into
/// `buffer`, use `program`, set `uniforms` in order, point `attributes` into
/// the buffer, and draw `vertex_count` vertices as a triangle list.
#[derive(Clone, Debug)]
pub struct DrawPlan {
    pub vertex_array: u32,
    pub buffer: u32,
    pub upload_bytes: usize,
    pub program: u32,
    pub uniforms: Vec<UniformBinding>,
    pub attributes: Vec<AttributePointer>,
    pub vertex_count: usize,
}

/// Number of texture uniforms in a sequence of uniforms.
pub open spec fn texture_count(u: Seq<(String, Uniform)>) -> nat
    decreases u.len(),
{
    if u.len() == 0 {
        0
    } else {
        texture_count(u.drop_last()) + if u.last().1 is Texture {
            1nat
        } else {
            0nat
        }
    }
}

/// The binding of uniform `i`: a vector is passed on as it is; a texture
/// takes the next texture unit, counting from 0 over the uniforms in order.
pub open spec fn binding_for(u: Seq<(String, Uniform)>, i: int) -> UniformBinding {
    UniformBinding {
        name: u[i].0,
        value: match u[i].1 {
            Uniform::Vec2(x, y) => BoundValue::Vec2(x, y),
            Uniform::Texture(t) => BoundValue::TextureUnit {
                unit: texture_count(u.take(i)) as u32,
                texture: t.gl_ref,
            },
        },
    }
}

/// Whether `b` binds each uniform of `u` as [`binding_for`] says.
pub open spec fn binds_all(u: Seq<(String, Uniform)>, b: Seq<UniformBinding>) -> bool {
    b.len() == u.len() && forall|i: int| 0 <= i < b.len() ==> #[trigger] b[i] == binding_for(u, i)
}

/// Whether a draw of `count` vertices of `stride` bytes is too large.
pub open spec fn too_many_vertices(count: nat, stride: nat) -> bool {
    count > MAX_DRAW_VERTICES || count * stride > isize::MAX
}

/// The error a draw is refused with, if any; checked in this order.
pub open spec fn draw_error(
    count: nat,
    stride: nat,
    attrs: Seq<VertexAttribute>,
    uniforms: Seq<(String, Uniform)>,
    max_texture_units: nat,
) -> Option<RenderError> {
    if too_many_vertices(count, stride) {
        Some(RenderError::TooManyVertices)
    } else if texture_count(uniforms) > max_texture_units {
        Some(RenderError::TextureUnitOverflow)
    } else if !layout_fits(stride, attrs) {
        Some(RenderError::LayoutMismatch)
    } else {
        None
    }
}

/// Whether `r` is the outcome of drawing `count` vertices of the given
/// layout from `vertex_buffer` with `program`.
pub open spec fn draw_outcome(
    vertex_buffer: VertexBuffer,
    program: Program,
    count: nat,
    stride: nat,
    attrs: Seq<VertexAttribute>,
    max_texture_units: nat,
    r: Result<DrawPlan, RenderError>,
) -> bool {
    match draw_error(count, stride, attrs, program.uniforms@, max_texture_units) {
        Some(e) => r == Err::<DrawPlan, RenderError>(e),
        None => r matches Ok(plan) && plan.vertex_array == vertex_buffer.0 && plan.buffer
            == vertex_buffer.1 && plan.upload_bytes == count * stride && plan.program
            == program.gl_ref && binds_all(program.uniforms@, plan.uniforms@)
            && plan.attributes@.len() == attrs.len() && (forall|i: int|
            0 <= i < attrs.len() ==> #[trigger] plan.attributes@[i] == pointer_for(
                stride,
                attrs,
                i,
            )) && plan.vertex_count == count,
    }
}

/// Counting texture uniforms over a longer prefix never gives fewer.
proof fn lemma_texture_count_mono(u: Seq<(String, Uniform)>, i: int, j: int)
    requires
        0 <= i <= j <= u.len(),
    ensures
        texture_count(u.take(i)) <= texture_count(u.take(j)),
    decreases j - i,
{
    if i < j {
        lemma_texture_count_step(u, j - 1);
        lemma_texture_count_mono(u, i, j - 1);
    }
}

proof fn lemma_texture_count_step(u: Seq<(String, Uniform)>, i: int)
    requires
        0 <= i < u.len(),
    ensures
        texture_count(u.take(i + 1)) == texture_count(u.take(i)) + if u[i].1 is Texture {
            1nat
        } else {
            0nat
        },
{
    assert(u.take(i + 1).drop_last() =~= u.take(i));
}

proof fn lemma_texture_count_prefix_le(u: Seq<(String, Uniform)>, i: int)
    requires
        0 <= i <= u.len(),
    ensures
        texture_count(u.take(i)) <= texture_count(u),
    decreases u.len() - i,
{
    if i < u.len() {
        lemma_texture_count_step(u, i);
        lemma_texture_count_prefix_le(u, i + 1);
    } else {
        assert(u.take(i) =~= u);
    }
}

/// Resolves the uniforms for a draw, assigning texture units in order from
/// 0. Fails when there are more texture uniforms than `max_texture_units`.
pub fn uniform_bindings(uniforms: &Vec<(String, Uniform)>, max_texture_units: u32) -> (r: Option<
    Vec<UniformBinding>,
>)
    ensures
        r.is_some() == (texture_count(uniforms@) <= max_texture_units),
        r matches Some(b) ==> binds_all(uniforms@, b@),
{
    let mut bindings: Vec<UniformBinding> = Vec::new();
    let mut texture_index: u32 = 0;
    let mut i: usize = 0;
    while i < uniforms.len()
        invariant
            i <= uniforms@.len(),
            texture_index == texture_count(uniforms@.take(i as int)),
            texture_index <= max_texture_units,
            bindings@.len() == i,
            forall|j: int| 0 <= j < i ==> #[trigger] bindings@[j] == binding_for(uniforms@, j),
        decreases uniforms@.len() - i,
    {
        let (name, uniform) = &uniforms[i];
        proof {
            lemma_texture_count_step(uniforms@, i as int);
        }
        let value = match uniform {
            Uniform::Vec2(x, y) => BoundValue::Vec2(*x, *y),
            Uniform::Texture(t) => {
                if texture_index == max_texture_units {
                    proof {
                        lemma_texture_count_prefix_le(uniforms@, i + 1);
                    }
                    return None;
                }
                let v = BoundValue::TextureUnit { unit: texture_index, texture: t.gl_ref() };
                texture_index = texture_index + 1;
                v
            },
        };
        bindings.push(UniformBinding { name: name.clone(), value });
        i = i + 1;
    }
    assert(uniforms@.take(i as int) =~= uniforms@);
    Some(bindings)
}

/// Plans the draw of `count` vertices whose type has the given stride and
/// attributes, from `vertex_buffer` with `program`, on a driver with
/// `max_texture_units` texture units.
pub fn plan_draw(
    vertex_buffer: &VertexBuffer,
    program: &Program,
    count: usize,
    stride: usize,
    attributes: &Vec<VertexAttribute>,
    max_texture_units: u32,
) -> (r: Result<DrawPlan, RenderError>)
    ensures
        draw_outcome(
            *vertex_buffer,
            *program,
            count as nat,
            stride as nat,
            attributes@,
            max_texture_units as nat,
            r,
        ),
{
    if count > MAX_DRAW_VERTICES {
        return Err(RenderError::TooManyVertices);
    }
    proof {
        assert(stride as u128 <= 0xffff_ffff_ffff_ffff_u128);
        assert(count as u128 * stride as u128 <= 0x7fff_ffff_u128 * 0xffff_ffff_ffff_ffff_u128)
            by (nonlinear_arith)
            requires
                count <= 0x7fff_ffff,
                stride as u128 <= 0xffff_ffff_ffff_ffff_u128,
        ;
    }
    if count as u128 * stride as u128 > isize::MAX as u128 {
        return Err(RenderError::TooManyVertices);
    }
    let uniforms = match uniform_bindings(program.uniforms(), max_texture_units) {
        Some(b) => b,
        None => return Err(RenderError::TextureUnitOverflow),
    };
    let pointers = match attribute_layout(stride, attributes) {
        Some(p) => p,
        None => return Err(RenderError::LayoutMismatch),
    };
    let vao = vertex_buffer.0;
    let vbo = vertex_buffer.1;
    Ok(
        DrawPlan {
            vertex_array: vao,
            buffer: vbo,
            upload_bytes: count * stride,
            program: program.gl_ref(),
            uniforms,
            attributes: pointers,
            vertex_count: count,
        },
    )
}

/// Plans the draw of `vertices` from `vertex_buffer` with `program`: the
/// outcome of [`plan_draw`] for the stride and attributes that the vertex
/// type declares.
pub fn render_vertices<V: Vertex>(
    vertex_buffer: &VertexBuffer,
    program: &Program,
    vertices: &Vec<V>,
    max_texture_units: u32,
) -> (r: Result<DrawPlan, RenderError>)
    ensures
        exists|stride: usize, attrs: Seq<VertexAttribute>|
            draw_outcome(
                *vertex_buffer,
                *program,
                vertices@.len(),
                stride as nat,
                attrs,
                max_texture_units as nat,
                r,
            ),
{
    let stride = V::stride();
    let attributes = V::attributes();
    let r = plan_draw(vertex_buffer, program, vertices.len(), stride, &attributes, max_texture_units);
    assert(draw_outcome(
        *vertex_buffer,
        *program,
        vertices@.len(),
        stride as nat,
        attributes@,
        max_texture_units as nat,
        r,
    ));
    r
}

/// The width and height of the viewport rectangle `(x, y, width, height)`
/// as the driver reports it.
pub fn screen_size(viewport: [i32; 4]) -> (r: (i32, i32))
    ensures
        r == (viewport@[2], viewport@[3]),
{
    (viewport[2], viewport[3])
}

/// The bit pattern of the 32-bit float 1.0.
pub const FLOAT_ONE_BITS: u32 = 0x3f80_0000;

/// A colour as the IEEE-754 bit patterns of four 32-bit float channels.
#[derive(Clone, Copy, Debug, PartialEq, Eq, Structural)]
pub struct Rgba {
    pub r: u32,
    pub g: u32,
    pub b: u32,
    pub a: u32,
}

/// Opaque black: 0.0 in each colour channel and 1.0 in alpha.
pub open spec fn opaque_black() -> Rgba {
    Rgba { r: 0, g: 0, b: 0, a: FLOAT_ONE_BITS }
}

/// The colour the colour buffer is cleared to: the one given, or opaque
/// black when none is. Only the colour buffer is cleared.
pub fn clear(color: Option<Rgba>) -> (r: Rgba)
    ensures
        r == (match color {
            Some(c) => c,
            None => opaque_black(),
        }),
{
    match color {
        Some(c) => c,
        None => Rgba { r: 0, g: 0, b: 0, a: FLOAT_ONE_BITS },
    }
}

/// The value a draw leaves on the uniform `name`: that of the last binding
/// of the name, since bindings are applied in order.
pub open spec fn last_binding(b: Seq<UniformBinding>, name: Seq<char>) -> Option<BoundValue>
    decreases b.len(),
{
    if b.len() == 0 {
        None
    } else if b.last().name@ == name {
        Some(b.last().value)
    } else {
        last_binding(b.drop_last(), name)
    }
}

/// Whether a bound value is what the shader sees of `u`: the vector itself,
/// or a texture unit holding the texture's driver object.
pub open spec fn shows(v: BoundValue, u: Uniform) -> bool {
    match u {
        Uniform::Vec2(x, y) => v == BoundValue::Vec2(x, y),
        Uniform::Texture(t) => v matches BoundValue::TextureUnit { texture, .. } && texture
            == t.gl_ref,
    }
}

/// When a uniform is set twice under one name before a draw, the draw leaves
/// the second value on it; for a texture, no other uniform of the draw is
/// given the texture unit that holds it.
pub proof fn lemma_last_write_wins(
    vertex_buffer: VertexBuffer,
    before: Program,
    after: Program,
    first: Uniform,
    second: Uniform,
    count: nat,
    stride: nat,
    attrs: Seq<VertexAttribute>,
    max_texture_units: nat,
    r: Result<DrawPlan, RenderError>,
)
    requires
        after.uniforms@.len() == before.uniforms@.len() + 2,
        after.uniforms@.take(before.uniforms@.len() as int) == before.uniforms@,
        after.uniforms@[before.uniforms@.len() as int].0@ == after.uniforms@.last().0@,
        after.uniforms@[before.uniforms@.len() as int].1 == first,
        after.uniforms@.last().1 == second,
        max_texture_units <= u32::MAX,
        draw_outcome(vertex_buffer, after, count, stride, attrs, max_texture_units, r),
        r is Ok,
    ensures
        r matches Ok(plan) && last_binding(plan.uniforms@, after.uniforms@.last().0@) matches Some(
            v,
        ) && shows(v, second) && (v matches BoundValue::TextureUnit { unit, .. } ==> forall|i: int|
            0 <= i < plan.uniforms@.len() - 1 ==> !(#[trigger] plan.uniforms@[i].value matches BoundValue::TextureUnit { unit: other, .. } && other == unit)),
{
    let u = after.uniforms@;
    let n = (u.len() - 1) as int;
    let plan = r->Ok_0;
    let b = plan.uniforms@;
    assert(b[n] == binding_for(u, n));
    if second is Texture {
        assert forall|i: int| 0 <= i < n implies !(#[trigger] b[i].value matches BoundValue::TextureUnit { unit: other, .. } && other == texture_count(u.take(n)) as u32) by {
            assert(b[i] == binding_for(u, i));
            if u[i].1 is Texture {
                lemma_texture_count_step(u, i);
                lemma_texture_count_mono(u, i + 1, n);
                lemma_texture_count_mono(u, n, u.len() as int);
                assert(u.take(u.len() as int) =~= u);
            }
        }
    }
}

/// In a planned draw whose vertex attributes fill its stride exactly, the
/// first attribute starts at byte 0 and each next one where the one before it
/// ends.
pub proof fn lemma_attribute_offsets_cumulative(
    vertex_buffer: VertexBuffer,
    program: Program,
    count: nat,
    stride: nat,
    attrs: Seq<VertexAttribute>,
    max_texture_units: nat,
    r: Result<DrawPlan, RenderError>,
)
    requires
        layout_bytes(attrs) == stride,
        stride <= usize::MAX,
        draw_outcome(vertex_buffer, program, count, stride, attrs, max_texture_units, r),
        r is Ok,
    ensures
        r matches Ok(plan) && plan.attributes@.len() == attrs.len() && (attrs.len() > 0
            ==> plan.attributes@[0].offset == 0) && forall|i: int|
            0 <= i < attrs.len() - 1 ==> #[trigger] plan.attributes@[i + 1].offset
                == plan.attributes@[i].offset + attribute_bytes(attrs[i]),
{
    let plan = r->Ok_0;
    if attrs.len() > 0 {
        assert(plan.attributes@[0] == pointer_for(stride, attrs, 0));
        assert(attrs.take(0).len() == 0);
    }
    assert forall|i: int| 0 <= i < attrs.len() - 1 implies #[trigger] plan.attributes@[i + 1].offset
        == plan.attributes@[i].offset + attribute_bytes(attrs[i]) by {
        assert(plan.attributes@[i] == pointer_for(stride, attrs, i));
        assert(plan.attributes@[i + 1] == pointer_for(stride, attrs, i + 1));
        assert(attrs.take(i + 1).drop_last() =~= attrs.take(i));
        lemma_layout_prefix_le(attrs, i + 1);
        lemma_layout_prefix_le(attrs, i);
    }
}

} // verus!
