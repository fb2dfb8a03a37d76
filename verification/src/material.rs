//! What the two custom materials hand to the renderer.
//!
//! A material declares a layout, which says what kind of resource sits at
//! each binding index of the fragment stage, and prepares a uniform buffer
//! and a bind group, which fills those indices. The renderer refuses a bind
//! group that does not fit its layout, so the tables are built here, as plain
//! data, and shown to fit. The textured material also lists the vertex inputs
//! of its shader.

use vstd::prelude::*;
use bevy::render::render_resource::std140::AsStd140;

verus! {

/// What a layout declares at one binding index.
#[derive(Clone, Copy, PartialEq, Eq, Debug)]
pub enum BindingKind {
    /// A uniform buffer without dynamic offset, bound with at least
    /// `min_binding_size` bytes.
    UniformBuffer { min_binding_size: u64 },
    /// A two-dimensional, single-sampled, filterable texture.
    Texture2d,
    /// A filtering sampler.
    FilteringSampler,
}

/// One row of a bind group layout. Every row is visible to the fragment stage
/// only and is no array.
#[derive(Clone, Copy, PartialEq, Eq, Debug)]
pub struct LayoutEntry {
    pub binding: u32,
    pub kind: BindingKind,
}

/// What a bind group puts at one binding index.
#[derive(Clone, Copy, PartialEq, Eq, Debug)]
pub enum Resource {
    /// The material's uniform buffer, from its first byte to its last.
    EntireBuffer,
    /// The view of the base colour texture.
    TextureView,
    /// The sampler of the base colour texture.
    Sampler,
}

/// One row of a bind group.
#[derive(Clone, Copy, PartialEq, Eq, Debug)]
pub struct GroupEntry {
    pub binding: u32,
    pub resource: Resource,
}

/// Why a material could not be prepared in this frame.
#[derive(Clone, Copy, PartialEq, Eq, Debug)]
pub enum PrepareError {
    /// The base colour texture is not on the GPU yet: try again next frame.
    RetryNextUpdate,
}

/// What a prepared material hands to the GPU: the bytes of its uniform buffer
/// and the rows of its bind group.
#[derive(Clone, PartialEq, Eq, Debug)]
pub struct Prepared {
    pub contents: Vec<u8>,
    pub bindings: Vec<GroupEntry>,
}

/// A per-vertex attribute of a mesh.
#[derive(Clone, Copy, PartialEq, Eq, Debug)]
pub enum VertexInput {
    Position,
    Normal,
    Uv0,
}

/// One input of a vertex shader: the attribute it reads and the location
/// where the shader expects it.
#[derive(Clone, Copy, PartialEq, Eq, Debug)]
pub struct VertexSlot {
    pub input: VertexInput,
    pub shader_location: u32,
}

/// Whether `entry` may fill `slot` when the uniform buffer holds `buffer_len`
/// bytes: same index, matching kind of resource, and a buffer that is not
/// shorter than the layout demands.
pub open spec fn fills(entry: GroupEntry, slot: LayoutEntry, buffer_len: nat) -> bool {
    &&& entry.binding == slot.binding
    &&& match (entry.resource, slot.kind) {
        (Resource::EntireBuffer, BindingKind::UniformBuffer { min_binding_size }) => {
            min_binding_size <= buffer_len
        },
        (Resource::TextureView, BindingKind::Texture2d) => true,
        (Resource::Sampler, BindingKind::FilteringSampler) => true,
        _ => false,
    }
}

/// Whether a bind group fits a layout: row by row, each entry fills the slot
/// at the same position.
pub open spec fn fits(group: Seq<GroupEntry>, layout: Seq<LayoutEntry>, buffer_len: nat) -> bool {
    &&& group.len() == layout.len()
    &&& forall|i: int| 0 <= i < group.len() ==> fills(#[trigger] group[i], layout[i], buffer_len)
}

/// No binding index is declared twice.
pub open spec fn distinct_bindings(layout: Seq<LayoutEntry>) -> bool {
    forall|i: int, j: int|
        0 <= i < j < layout.len() ==> (#[trigger] layout[i]).binding != (#[trigger] layout[j]).binding
}

/// No shader location is used twice.
pub open spec fn distinct_locations(slots: Seq<VertexSlot>) -> bool {
    forall|i: int, j: int|
        0 <= i < j < slots.len() ==> (#[trigger] slots[i]).shader_location != (
        #[trigger] slots[j]).shader_location
}

/// The vertex inputs of the textured material: position, normal and the first
/// set of texture coordinates, at locations 0, 1 and 2.
pub open spec fn games202_vertex_slots_spec() -> Seq<VertexSlot> {
    seq![
        VertexSlot { input: VertexInput::Position, shader_location: 0 },
        VertexSlot { input: VertexInput::Normal, shader_location: 1 },
        VertexSlot { input: VertexInput::Uv0, shader_location: 2 },
    ]
}

/// The layout of the textured material: a uniform buffer, the base colour
/// texture and its sampler, at indices 0, 1 and 2.
pub open spec fn games202_layout_spec(scalar_size: u64) -> Seq<LayoutEntry> {
    seq![
        LayoutEntry { binding: 0, kind: BindingKind::UniformBuffer { min_binding_size: scalar_size } },
        LayoutEntry { binding: 1, kind: BindingKind::Texture2d },
        LayoutEntry { binding: 2, kind: BindingKind::FilteringSampler },
    ]
}

/// The bind group of the textured material.
pub open spec fn games202_bindings_spec() -> Seq<GroupEntry> {
    seq![
        GroupEntry { binding: 0, resource: Resource::EntireBuffer },
        GroupEntry { binding: 1, resource: Resource::TextureView },
        GroupEntry { binding: 2, resource: Resource::Sampler },
    ]
}

/// The layout of the plain coloured material: one uniform buffer that holds a
/// four-component vector.
pub open spec fn obj_layout_spec() -> Seq<LayoutEntry> {
    seq![LayoutEntry { binding: 0, kind: BindingKind::UniformBuffer { min_binding_size: 16 } }]
}

/// The bind group of the plain coloured material.
pub open spec fn obj_bindings_spec() -> Seq<GroupEntry> {
    seq![GroupEntry { binding: 0, resource: Resource::EntireBuffer }]
}

/// Size in bytes of a four-component vector in a uniform buffer.
///
/// Calls `AsStd140::std140_size_static` of bevy's render crate for
/// `bevy::math::Vec4`. That function returns the size of the type's std140
/// form, a `repr(C)` struct of four 32-bit fields without padding: 16 on every
/// target. Nothing here proves it.
#[verifier::external_body]
fn vec4_std140_size() -> (size: usize)
    ensures
        size == 16,
{
    bevy::math::Vec4::std140_size_static()
}

/// Builds the layout of the textured material. `scalar_size` is the size in
/// bytes of one scalar of the uniform buffer; the layout asks for a buffer of
/// at least that many bytes.
pub fn games202_layout(scalar_size: u64) -> (layout: Vec<LayoutEntry>)
    ensures
        layout@ == games202_layout_spec(scalar_size),
        distinct_bindings(layout@),
{
    let mut layout: Vec<LayoutEntry> = Vec::new();
    layout.push(
        LayoutEntry { binding: 0, kind: BindingKind::UniformBuffer { min_binding_size: scalar_size } },
    );
    layout.push(LayoutEntry { binding: 1, kind: BindingKind::Texture2d });
    layout.push(LayoutEntry { binding: 2, kind: BindingKind::FilteringSampler });
    layout
}

/// Builds the layout of the plain coloured material.
pub fn obj_layout() -> (layout: Vec<LayoutEntry>)
    ensures
        layout@ == obj_layout_spec(),
        distinct_bindings(layout@),
{
    let size = vec4_std140_size();
    let mut layout: Vec<LayoutEntry> = Vec::new();
    layout.push(
        LayoutEntry { binding: 0, kind: BindingKind::UniformBuffer { min_binding_size: size as u64 } },
    );
    layout
}

/// Packs the uniform buffer of the textured material: the bytes of the base
/// colour, then those of the metallic factor, then those of the roughness.
pub fn games202_uniform(base_color: &[u8], metallic: &[u8], roughness: &[u8]) -> (contents: Vec<u8>)
    ensures
        contents@ == base_color@ + metallic@ + roughness@,
{
    let mut contents: Vec<u8> = Vec::new();
    contents.extend_from_slice(base_color);
    contents.extend_from_slice(metallic);
    contents.extend_from_slice(roughness);
    contents
}

/// Prepares the textured material: its uniform buffer, packed from the bytes
/// of its three values, and its bind group. Asks for another try when the
/// texture has not been found on the GPU.
pub fn games202_prepare(
    texture_found: bool,
    base_color: &[u8],
    metallic: &[u8],
    roughness: &[u8],
) -> (r: Result<Prepared, PrepareError>)
    ensures
        texture_found ==> r is Ok && r->Ok_0.contents@ == base_color@ + metallic@ + roughness@
            && r->Ok_0.bindings@ == games202_bindings_spec(),
        !texture_found ==> r is Err && r->Err_0 == PrepareError::RetryNextUpdate,
{
    if !texture_found {
        return Err(PrepareError::RetryNextUpdate);
    }
    let contents = games202_uniform(base_color, metallic, roughness);
    let mut bindings: Vec<GroupEntry> = Vec::new();
    bindings.push(GroupEntry { binding: 0, resource: Resource::EntireBuffer });
    bindings.push(GroupEntry { binding: 1, resource: Resource::TextureView });
    bindings.push(GroupEntry { binding: 2, resource: Resource::Sampler });
    Ok(Prepared { contents, bindings })
}

/// Prepares the plain coloured material: its uniform buffer holds the bytes of
/// the colour, and its bind group binds that buffer.
pub fn obj_prepare(color: &[u8]) -> (r: Prepared)
    ensures
        r.contents@ == color@,
        r.bindings@ == obj_bindings_spec(),
{
    let mut contents: Vec<u8> = Vec::new();
    contents.extend_from_slice(color);
    let mut bindings: Vec<GroupEntry> = Vec::new();
    bindings.push(GroupEntry { binding: 0, resource: Resource::EntireBuffer });
    Prepared { contents, bindings }
}

/// Lists the vertex inputs of the textured material.
pub fn games202_vertex_slots() -> (slots: Vec<VertexSlot>)
    ensures
        slots@ == games202_vertex_slots_spec(),
        distinct_locations(slots@),
{
    let mut slots: Vec<VertexSlot> = Vec::new();
    slots.push(VertexSlot { input: VertexInput::Position, shader_location: 0 });
    slots.push(VertexSlot { input: VertexInput::Normal, shader_location: 1 });
    slots.push(VertexSlot { input: VertexInput::Uv0, shader_location: 2 });
    slots
}

/// The textured material's bind group fits its layout exactly when the
/// uniform buffer holds at least one scalar.
pub proof fn lemma_games202_fits(scalar_size: u64, buffer_len: nat)
    ensures
        fits(games202_bindings_spec(), games202_layout_spec(scalar_size), buffer_len)
            <==> scalar_size <= buffer_len,
{
    let group = games202_bindings_spec();
    let layout = games202_layout_spec(scalar_size);
    assert(fits(group, layout, buffer_len) ==> fills(group[0], layout[0], buffer_len));
}

/// A uniform buffer packed from a colour and two scalars, one of them of the
/// size the layout was built with, is long enough for that layout.
pub proof fn lemma_games202_uniform_fits(
    base_color: Seq<u8>,
    metallic: Seq<u8>,
    roughness: Seq<u8>,
    scalar_size: u64,
)
    requires
        metallic.len() == scalar_size || roughness.len() == scalar_size,
    ensures
        fits(
            games202_bindings_spec(),
            games202_layout_spec(scalar_size),
            (base_color + metallic + roughness).len(),
        ),
{
    lemma_games202_fits(scalar_size, (base_color + metallic + roughness).len());
}

/// The plain coloured material's bind group fits its layout exactly when the
/// uniform buffer holds at least the 16 bytes of its colour.
pub proof fn lemma_obj_fits(buffer_len: nat)
    ensures
        fits(obj_bindings_spec(), obj_layout_spec(), buffer_len) <==> 16 <= buffer_len,
{
    let group = obj_bindings_spec();
    let layout = obj_layout_spec();
    assert(fits(group, layout, buffer_len) ==> fills(group[0], layout[0], buffer_len));
}

} // verus!
