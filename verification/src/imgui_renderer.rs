//! Bookkeeping of the ImGui renderer: GPU buffer capacities, what to do for each draw command
//! (skip, draw or fail on an unknown texture), draw setup and draw counts
//!
//! The renderer keeps one vertex buffer and one index buffer on the device and grows them when
//! a draw list does not fit. The decisions live here; the device calls are made by the caller
//! with the values these functions return.

use std::rc::Rc;
use vstd::prelude::*;
use crate::enums::{IndexElementSize, PrimitiveType, VertexElementFormat, VertexElementUsage};
use crate::handles::{BufferHandle, EffectDataHandle, EffectHandle, TextureHandle};
use crate::mojo::{no_change_effect, EffectStateChanges};
use crate::params::Rect;
use crate::sampler::{preset_sampler_state, SamplerState};
use crate::enums::{TextureAddressMode, TextureFilter};
use crate::vertex::{
    element_end, element_format_valid, is_stride_of, VertexBufferBinding, VertexDeclaration,
    VertexElement,
};

verus! {

/// Size of an ImGui vertex in bytes: position (2 floats), texture coordinates (2 floats) and
/// color (4 bytes)
pub const VERT_SIZE: usize = 20;

/// Size of an index in bytes (16 bits)
pub const INDEX_SIZE: usize = 2;

/// Number of quads the batch buffers are allocated for up front
pub const N_QUADS: usize = 2048;

/// Texture id that ImGui uses for the font atlas
pub const FONT_TEXTURE_ID: usize = usize::MAX;

/// GPU texture with its size
pub struct TextureData2d {
    pub raw: TextureHandle,
    pub w: u32,
    pub h: u32,
}

/// Shared GPU texture with its size
pub struct RcTexture2d {
    pub texture: Rc<TextureData2d>,
}

impl RcTexture2d {
    pub fn new(raw: TextureHandle, w: u32, h: u32) -> (r: RcTexture2d)
        ensures
            r.texture.raw == raw,
            r.texture.w == w,
            r.texture.h == h,
    {
        RcTexture2d { texture: Rc::new(TextureData2d { raw, w, h }) }
    }
}

/// The elements of an ImGui vertex: position at 0, texture coordinates at 8, color at 16
pub open spec fn imgui_vertex_elements() -> Seq<VertexElement> {
    seq![
        VertexElement {
            offset: 0,
            vertex_element_format: VertexElementFormat::Vector2.code(),
            vertex_element_usage: VertexElementUsage::Position.code(),
            usage_index: 0,
        },
        VertexElement {
            offset: 8,
            vertex_element_format: VertexElementFormat::Vector2.code(),
            vertex_element_usage: VertexElementUsage::TextureCoordinate.code(),
            usage_index: 0,
        },
        VertexElement {
            offset: 16,
            vertex_element_format: VertexElementFormat::Color.code(),
            vertex_element_usage: VertexElementUsage::Color.code(),
            usage_index: 0,
        },
    ]
}

/// The layout of an ImGui vertex in FNA3D's numbering, element by element: the position
/// (usage 0) as two floats (format 1) at byte 0, the texture coordinates (usage 2) as two
/// floats at byte 8, and the packed color (usage 1, format 4) at byte 16, each with usage
/// index 0. No two elements share a usage, so the shader gets each attribute once.
pub proof fn lemma_imgui_vertex_layout()
    ensures
        imgui_vertex_elements().len() == 3,
        imgui_vertex_elements()[0].offset == 0,
        imgui_vertex_elements()[0].vertex_element_format == 1,
        imgui_vertex_elements()[0].vertex_element_usage == 0,
        imgui_vertex_elements()[1].offset == 8,
        imgui_vertex_elements()[1].vertex_element_format == 1,
        imgui_vertex_elements()[1].vertex_element_usage == 2,
        imgui_vertex_elements()[2].offset == 16,
        imgui_vertex_elements()[2].vertex_element_format == 4,
        imgui_vertex_elements()[2].vertex_element_usage == 1,
        forall|i: int|
            0 <= i < 3 ==> (#[trigger] imgui_vertex_elements()[i]).usage_index == 0,
        forall|i: int, j: int|
            0 <= i < j < 3 ==> imgui_vertex_elements()[i].vertex_element_usage
                != imgui_vertex_elements()[j].vertex_element_usage,
{
    VertexElementFormat::lemma_values();
    VertexElementUsage::lemma_values();
}

/// The elements of an ImGui vertex
pub fn vertex_elements() -> (r: Vec<VertexElement>)
    ensures
        r@ == imgui_vertex_elements(),
        r@.len() == 3,
        r@[0].offset == 0 && r@[0].vertex_element_format == 1 && r@[0].vertex_element_usage == 0,
        r@[1].offset == 8 && r@[1].vertex_element_format == 1 && r@[1].vertex_element_usage == 2,
        r@[2].offset == 16 && r@[2].vertex_element_format == 4 && r@[2].vertex_element_usage == 1,
{
    proof {
        lemma_imgui_vertex_layout();
    }
    let mut v: Vec<VertexElement> = Vec::new();
    v.push(VertexElement {
        offset: 0,
        vertex_element_format: VertexElementFormat::Vector2.to_u32(),
        vertex_element_usage: VertexElementUsage::Position.to_u32(),
        usage_index: 0,
    });
    v.push(VertexElement {
        offset: 8,
        vertex_element_format: VertexElementFormat::Vector2.to_u32(),
        vertex_element_usage: VertexElementUsage::TextureCoordinate.to_u32(),
        usage_index: 0,
    });
    v.push(VertexElement {
        offset: 16,
        vertex_element_format: VertexElementFormat::Color.to_u32(),
        vertex_element_usage: VertexElementUsage::Color.to_u32(),
        usage_index: 0,
    });
    assert(v@ == imgui_vertex_elements());
    v
}

/// Declaration of an ImGui vertex: stride 20, three elements
pub fn vertex_declaration() -> (r: VertexDeclaration)
    ensures
        r.vertex_stride == VERT_SIZE,
        r.element_count == 3,
        r.elements@ == imgui_vertex_elements(),
        r.elements@[0].vertex_element_usage == 0,
        r.elements@[1].vertex_element_usage == 2,
        r.elements@[2].vertex_element_usage == 1,
{
    proof {
        lemma_imgui_vertex_layout();
    }
    VertexDeclaration { vertex_stride: 20, element_count: 3, elements: vertex_elements() }
}

/// The declared vertex size is the stride its elements span: the color element ends at byte
/// 20, and no element ends later.
pub proof fn lemma_vertex_declaration_stride()
    ensures
        forall|i: int|
            0 <= i < imgui_vertex_elements().len() ==> element_format_valid(
                #[trigger] imgui_vertex_elements()[i],
            ),
        is_stride_of(VERT_SIZE as int, imgui_vertex_elements()),
{
    let s = imgui_vertex_elements();
    assert(element_format_valid(s[0]));
    assert(element_format_valid(s[1]));
    assert(element_format_valid(s[2]));
    assert(0i32 as u32 == 0) by (bit_vector);
    assert(8i32 as u32 == 8) by (bit_vector);
    assert(16i32 as u32 == 16) by (bit_vector);
    assert(element_end(s[0]) == 8);
    assert(element_end(s[1]) == 16);
    assert(element_end(s[2]) == 20);
}

/// Capacity decision shared by the two buffers: the byte length needed for `n_items` items of
/// `item_size` bytes when each counted unit takes `unit` bytes (the renderer counts
/// `n_items + item_size` units)
pub open spec fn required_len(unit: int, n_items: int, item_size: int) -> int {
    unit * (n_items + item_size)
}

/// Vertex buffer on the device with its capacity in bytes
pub struct GpuVertexBuffer {
    buf: BufferHandle,
    capacity_in_bytes: usize,
}

impl GpuVertexBuffer {
    /// Byte length of a buffer for `n_vertices` vertices
    pub fn byte_len(n_vertices: usize) -> (r: usize)
        requires
            VERT_SIZE * n_vertices <= usize::MAX,
        ensures
            r == VERT_SIZE * n_vertices,
    {
        VERT_SIZE * n_vertices
    }

    /// The buffer `buf`, allocated for `n_vertices` vertices
    pub fn new(buf: BufferHandle, n_vertices: usize) -> (r: GpuVertexBuffer)
        requires
            VERT_SIZE * n_vertices <= usize::MAX,
        ensures
            r.buf() == buf,
            r.capacity() == VERT_SIZE * n_vertices,
    {
        GpuVertexBuffer { buf, capacity_in_bytes: Self::byte_len(n_vertices) }
    }

    pub closed spec fn buf(&self) -> BufferHandle {
        self.buf
    }

    pub closed spec fn capacity(&self) -> usize {
        self.capacity_in_bytes
    }

    /// The buffer on the device
    pub fn buffer(&self) -> (r: BufferHandle)
        ensures
            r == self.buf(),
    {
        self.buf
    }

    /// Capacity in bytes
    pub fn capacity_in_bytes(&self) -> (r: usize)
        ensures
            r == self.capacity(),
    {
        self.capacity_in_bytes
    }

    /// Prepares uploading `n_items` items of `item_size` bytes. When the required length
    /// exceeds the capacity, the capacity becomes that length and the length is returned: the
    /// caller disposes the old buffer, allocates one of that length and hands it to
    /// `replace_buffer`. Otherwise nothing changes.
    pub fn upload_vertices(&mut self, n_items: usize, item_size: usize) -> (r: Option<usize>)
        requires
            required_len(VERT_SIZE as int, n_items as int, item_size as int) <= usize::MAX,
        ensures
            final(self).buf() == old(self).buf(),
            required_len(VERT_SIZE as int, n_items as int, item_size as int) > old(self).capacity()
                ==> r == Some(required_len(VERT_SIZE as int, n_items as int, item_size as int) as usize)
                && final(self).capacity() == required_len(VERT_SIZE as int, n_items as int, item_size as int),
            required_len(VERT_SIZE as int, n_items as int, item_size as int) <= old(self).capacity()
                ==> r is None && final(self).capacity() == old(self).capacity(),
            final(self).capacity() >= required_len(VERT_SIZE as int, n_items as int, item_size as int),
            final(self).capacity() >= old(self).capacity(),
    {
        let len = VERT_SIZE * (n_items + item_size);
        if len > self.capacity_in_bytes {
            self.capacity_in_bytes = len;
            Some(len)
        } else {
            None
        }
    }

    /// Replaces the buffer on the device, keeping the capacity
    pub fn replace_buffer(&mut self, buf: BufferHandle)
        ensures
            final(self).buf() == buf,
            final(self).capacity() == old(self).capacity(),
    {
        self.buf = buf;
    }
}

/// Index buffer on the device with its capacity in bytes
pub struct GpuIndexBuffer {
    buf: BufferHandle,
    capacity_in_bytes: usize,
}

impl GpuIndexBuffer {
    /// Byte length of a buffer for `n_indices` indices
    pub fn byte_len(n_indices: usize) -> (r: usize)
        requires
            INDEX_SIZE * n_indices <= usize::MAX,
        ensures
            r == INDEX_SIZE * n_indices,
    {
        INDEX_SIZE * n_indices
    }

    /// The buffer `buf`, allocated for `n_indices` indices
    pub fn new(buf: BufferHandle, n_indices: usize) -> (r: GpuIndexBuffer)
        requires
            INDEX_SIZE * n_indices <= usize::MAX,
        ensures
            r.buf() == buf,
            r.capacity() == INDEX_SIZE * n_indices,
    {
        GpuIndexBuffer { buf, capacity_in_bytes: Self::byte_len(n_indices) }
    }

    pub closed spec fn buf(&self) -> BufferHandle {
        self.buf
    }

    pub closed spec fn capacity(&self) -> usize {
        self.capacity_in_bytes
    }

    /// The buffer on the device
    pub fn buffer(&self) -> (r: BufferHandle)
        ensures
            r == self.buf(),
    {
        self.buf
    }

    /// Capacity in bytes
    pub fn capacity_in_bytes(&self) -> (r: usize)
        ensures
            r == self.capacity(),
    {
        self.capacity_in_bytes
    }

    /// Prepares uploading `n_items` items of `item_size` bytes; see
    /// `GpuVertexBuffer::upload_vertices`
    pub fn upload_indices(&mut self, n_items: usize, item_size: usize) -> (r: Option<usize>)
        requires
            required_len(INDEX_SIZE as int, n_items as int, item_size as int) <= usize::MAX,
        ensures
            final(self).buf() == old(self).buf(),
            required_len(INDEX_SIZE as int, n_items as int, item_size as int) > old(self).capacity()
                ==> r == Some(required_len(INDEX_SIZE as int, n_items as int, item_size as int) as usize)
                && final(self).capacity() == required_len(INDEX_SIZE as int, n_items as int, item_size as int),
            required_len(INDEX_SIZE as int, n_items as int, item_size as int) <= old(self).capacity()
                ==> r is None && final(self).capacity() == old(self).capacity(),
            final(self).capacity() >= required_len(INDEX_SIZE as int, n_items as int, item_size as int),
            final(self).capacity() >= old(self).capacity(),
    {
        let len = INDEX_SIZE * (n_items + item_size);
        if len > self.capacity_in_bytes {
            self.capacity_in_bytes = len;
            Some(len)
        } else {
            None
        }
    }

    /// Replaces the buffer on the device, keeping the capacity
    pub fn replace_buffer(&mut self, buf: BufferHandle)
        ensures
            final(self).buf() == buf,
            final(self).capacity() == old(self).capacity(),
    {
        self.buf = buf;
    }
}

/// Everything a draw call needs set on the device, in order: scissor box, effect pass with
/// its state changes, sampler at slot 0 with the texture, and the vertex buffer binding
pub struct DrawSetup {
    pub scissor_rect: Rect,
    pub effect: EffectHandle,
    pub pass: u32,
    pub state_changes: EffectStateChanges,
    pub sampler_slot: u32,
    pub texture: TextureHandle,
    pub sampler: SamplerState,
    pub binding: VertexBufferBinding,
    pub bindings_updated: bool,
    pub base_vertex: u32,
}

/// `imgui::Textures`: ImGui's table of textures registered by id
#[verifier::external_type_specification]
#[verifier::external_body]
#[verifier::reject_recursive_types(T)]
pub struct ExTextures<T>(imgui::Textures<T>);

/// The textures an ImGui texture table holds: each registered id with the device texture of the
/// shared texture stored under it
pub uninterp spec fn registered_textures(t: imgui::Textures<RcTexture2d>) -> Map<usize, TextureHandle>;

/// `imgui::Textures::new`: an empty table
#[verifier::external_body]
fn textures_new() -> (r: imgui::Textures<RcTexture2d>)
    ensures
        registered_textures(r).dom().is_empty(),
{
    imgui::Textures::new()
}

/// `imgui::Textures::get`: the texture registered under `id`, if any, taken by its device
/// texture
#[verifier::external_body]
fn textures_get(t: &imgui::Textures<RcTexture2d>, id: usize) -> (r: Option<TextureHandle>)
    ensures
        registered_textures(*t).dom().contains(id) ==> r == Some(registered_textures(*t)[id]),
        !registered_textures(*t).dom().contains(id) ==> r is None,
{
    t.get(imgui::TextureId::from(id)).map(|tex| tex.texture.raw)
}

/// Whether `s` is the pipeline set-up `Batch::prepare_draw` gives for this batch, scissor box,
/// texture and base vertex
pub open spec fn is_draw_setup_for(
    batch: Batch,
    s: DrawSetup,
    scissor: Rect,
    texture: TextureHandle,
    vtx_offset: u32,
) -> bool {
    &&& s.scissor_rect == scissor
    &&& s.effect == batch.effect
    &&& s.pass == 0
    &&& s.state_changes.render_state_change_count == 0
    &&& s.state_changes.sampler_state_change_count == 0
    &&& s.state_changes.vertex_sampler_state_change_count == 0
    &&& s.sampler_slot == 0
    &&& s.texture == texture
    &&& s.sampler@ == preset_sampler_state(TextureFilter::Linear, TextureAddressMode::Wrap)
    &&& s.binding.vertex_buffer == batch.vbuf.buf()
    &&& s.binding.vertex_declaration.vertex_stride == VERT_SIZE
    &&& s.binding.vertex_declaration.element_count == 3
    &&& s.binding.vertex_declaration.elements@ == imgui_vertex_elements()
    &&& s.binding.vertex_offset == 0
    &&& s.binding.instance_frequency == 0
    &&& s.bindings_updated
    &&& s.base_vertex == vtx_offset
}

/// One element draw command of an ImGui draw list, as the renderer reads it
#[derive(Debug, Clone, Copy)]
pub struct DrawCommand {
    /// Whether the clip rectangle meets the framebuffer
    pub clip_visible: bool,
    /// Scissor box of the clip rectangle
    pub scissor: Rect,
    /// ImGui texture id of the command
    pub texture_id: usize,
    /// The texture registered under that id, if any
    pub registered: Option<TextureHandle>,
    /// Number of indices
    pub count: usize,
    /// First vertex of the command in the vertex buffer
    pub vtx_offset: usize,
    /// First index of the command in the index buffer
    pub idx_offset: usize,
}

/// Arguments of the indexed draw call of a command, after its pipeline set-up
pub struct DrawCall {
    pub setup: DrawSetup,
    pub primitive_type: PrimitiveType,
    pub base_vertex: u32,
    pub min_vertex_index: u32,
    pub n_vertices: u32,
    pub start_index: u32,
    pub n_primitives: u32,
    pub index_buffer: BufferHandle,
    pub index_element_size: IndexElementSize,
}

/// What the renderer does for a command
pub enum CommandAction {
    /// The command is clipped away
    Skip,
    /// Set the pipeline up and draw
    Draw(DrawCall),
}

/// The texture a command draws with: the font atlas for the font id, otherwise the registered
/// texture, if there is one
pub open spec fn command_texture(cmd: DrawCommand, font: TextureHandle) -> Option<TextureHandle> {
    if cmd.texture_id == FONT_TEXTURE_ID {
        Some(font)
    } else {
        cmd.registered
    }
}

/// Whether the vertex count of a command fits the renderer's 32-bit computation
pub open spec fn command_counts_fit(cmd: DrawCommand) -> bool {
    (cmd.count as u32) * 2 <= u32::MAX
}

/// Whether `d` draws command `cmd` of this batch with `texture`: triangles from the command's
/// vertices and indices, two thirds as many vertices and a third as many triangles as indices,
/// from the batch's 16-bit index buffer
pub open spec fn is_draw_of(batch: Batch, cmd: DrawCommand, texture: TextureHandle, d: DrawCall) -> bool {
    &&& is_draw_setup_for(batch, d.setup, cmd.scissor, texture, cmd.vtx_offset as u32)
    &&& d.primitive_type == PrimitiveType::TriangleList
    &&& d.base_vertex == cmd.vtx_offset as u32
    &&& d.min_vertex_index == 0
    &&& d.n_vertices == (cmd.count as u32) * 2 / 3
    &&& d.start_index == cmd.idx_offset as u32
    &&& d.n_primitives == (cmd.count / 3) as u32
    &&& d.index_buffer == batch.ibuf.buf()
    &&& d.index_element_size == IndexElementSize::Bits16
}

/// A draw call of a command draws a triangle list (FNA3D value 0) with 16-bit indices (value 0,
/// two bytes each as the index buffer counts them), sampling its texture linearly (0) with
/// wrapping (0) on all three axes, from vertices whose texture coordinates are declared at byte
/// 8 (usage 2) and whose stride is 20 bytes; each of its triangles takes three of the command's
/// indices, so it never draws more triangles than the indices hold.
pub proof fn lemma_draw_call_values(batch: Batch, cmd: DrawCommand, texture: TextureHandle, d: DrawCall)
    requires
        is_draw_of(batch, cmd, texture, d),
    ensures
        d.primitive_type.code() == 0,
        d.index_element_size.code() == 0,
        INDEX_SIZE == 2,
        d.setup.sampler@.filter == 0,
        d.setup.sampler@.address_u == 0,
        d.setup.sampler@.address_v == 0,
        d.setup.sampler@.address_w == 0,
        d.setup.pass == 0,
        d.setup.sampler_slot == 0,
        d.setup.binding.vertex_declaration.vertex_stride == 20,
        d.setup.binding.vertex_declaration.elements@[1].offset == 8,
        d.setup.binding.vertex_declaration.elements@[1].vertex_element_usage == 2,
        3 * d.n_primitives <= cmd.count,
{
    PrimitiveType::lemma_values();
    IndexElementSize::lemma_values();
    crate::sampler::lemma_default_sampler_values(TextureFilter::Linear, TextureAddressMode::Wrap);
    lemma_imgui_vertex_layout();
}

/// Whether `r` is what the renderer does for `cmd`: skip a clipped command; fail with the
/// texture id when it is neither the font id nor registered; otherwise draw with the texture
pub open spec fn is_action_of(
    batch: Batch,
    cmd: DrawCommand,
    font: TextureHandle,
    r: Result<CommandAction, usize>,
) -> bool {
    if !cmd.clip_visible {
        r matches Ok(CommandAction::Skip)
    } else {
        match command_texture(cmd, font) {
            None => r == Err::<CommandAction, usize>(cmd.texture_id),
            Some(t) => r matches Ok(CommandAction::Draw(d)) && is_draw_of(batch, cmd, t, d),
        }
    }
}

/// The renderer's GPU buffers and sprite effect
pub struct Batch {
    pub ibuf: GpuIndexBuffer,
    pub vbuf: GpuVertexBuffer,
    pub effect: EffectHandle,
    pub effect_data: EffectDataHandle,
}

impl Batch {
    /// Vertices the vertex buffer is first allocated for: four per quad
    pub fn initial_vertex_count() -> (r: usize)
        ensures
            r == 4 * N_QUADS,
    {
        4 * N_QUADS
    }

    /// Indices the index buffer is first allocated for: six per quad
    pub fn initial_index_count() -> (r: usize)
        ensures
            r == 6 * N_QUADS,
    {
        6 * N_QUADS
    }

    /// Batch over freshly allocated buffers of the initial sizes and the compiled effect
    pub fn new(
        vbuf: BufferHandle,
        ibuf: BufferHandle,
        effect: EffectHandle,
        effect_data: EffectDataHandle,
    ) -> (r: Batch)
        ensures
            r.vbuf.buf() == vbuf,
            r.vbuf.capacity() == VERT_SIZE * 4 * N_QUADS,
            r.ibuf.buf() == ibuf,
            r.ibuf.capacity() == INDEX_SIZE * 6 * N_QUADS,
            r.effect == effect,
            r.effect_data == effect_data,
    {
        let vbuf = GpuVertexBuffer::new(vbuf, Self::initial_vertex_count());
        let ibuf = GpuIndexBuffer::new(ibuf, Self::initial_index_count());
        Batch { vbuf, ibuf, effect, effect_data }
    }

    /// Prepares uploading a draw list of `n_vertices` vertices of `vertex_size` bytes and
    /// `n_indices` indices of `index_size` bytes; each buffer that has to grow reports its new
    /// byte length (see `GpuVertexBuffer::upload_vertices`)
    pub fn set_draw_list(
        &mut self,
        n_vertices: usize,
        vertex_size: usize,
        n_indices: usize,
        index_size: usize,
    ) -> (r: (Option<usize>, Option<usize>))
        requires
            required_len(VERT_SIZE as int, n_vertices as int, vertex_size as int) <= usize::MAX,
            required_len(INDEX_SIZE as int, n_indices as int, index_size as int) <= usize::MAX,
        ensures
            final(self).vbuf.buf() == old(self).vbuf.buf(),
            final(self).ibuf.buf() == old(self).ibuf.buf(),
            final(self).effect == old(self).effect,
            final(self).effect_data == old(self).effect_data,
            final(self).vbuf.capacity() >= required_len(
                VERT_SIZE as int,
                n_vertices as int,
                vertex_size as int,
            ),
            final(self).ibuf.capacity() >= required_len(
                INDEX_SIZE as int,
                n_indices as int,
                index_size as int,
            ),
            r.0 is Some <==> required_len(VERT_SIZE as int, n_vertices as int, vertex_size as int)
                > old(self).vbuf.capacity(),
            r.1 is Some <==> required_len(INDEX_SIZE as int, n_indices as int, index_size as int)
                > old(self).ibuf.capacity(),
            r.0 matches Some(len) ==> len == final(self).vbuf.capacity(),
            r.1 matches Some(len) ==> len == final(self).ibuf.capacity(),
            r.0 is None ==> final(self).vbuf.capacity() == old(self).vbuf.capacity(),
            r.1 is None ==> final(self).ibuf.capacity() == old(self).ibuf.capacity(),
    {
        let v = self.vbuf.upload_vertices(n_vertices, vertex_size);
        let i = self.ibuf.upload_indices(n_indices, index_size);
        (v, i)
    }

    /// Pipeline set-up before a draw call: the scissor box, pass 0 of the effect with no state
    /// changes, the texture sampled linearly with wrapping at slot 0, and the vertex buffer
    /// with the ImGui vertex layout at offset 0, based at `vtx_offset`
    pub fn prepare_draw(&self, scissors_rect: &Rect, texture: TextureHandle, vtx_offset: u32) -> (r:
        DrawSetup)
        ensures
            is_draw_setup_for(*self, r, *scissors_rect, texture, vtx_offset),
    {
        let state_changes = no_change_effect();
        let sampler = SamplerState::linear_wrap();
        let binding = VertexBufferBinding {
            vertex_buffer: self.vbuf.buffer(),
            vertex_declaration: vertex_declaration(),
            vertex_offset: 0,
            instance_frequency: 0,
        };
        DrawSetup {
            scissor_rect: *scissors_rect,
            effect: self.effect,
            pass: 0,
            state_changes,
            sampler_slot: 0,
            texture,
            sampler,
            binding,
            bindings_updated: true,
            base_vertex: vtx_offset,
        }
    }

    /// What to do for one element command: nothing when it is clipped away; an error carrying
    /// its texture id when that id is neither the font atlas nor a registered texture;
    /// otherwise the pipeline set-up and the indexed draw of its triangles
    pub fn command_action(&self, cmd: &DrawCommand, font: TextureHandle) -> (r: Result<
        CommandAction,
        usize,
    >)
        requires
            command_counts_fit(*cmd),
        ensures
            is_action_of(*self, *cmd, font, r),
    {
        if !cmd.clip_visible {
            return Ok(CommandAction::Skip);
        }
        let texture = if is_font_texture(cmd.texture_id) {
            font
        } else {
            match cmd.registered {
                Some(t) => t,
                None => return Err(cmd.texture_id),
            }
        };
        let setup = self.prepare_draw(&cmd.scissor, texture, cmd.vtx_offset as u32);
        let (n_vertices, n_primitives) = draw_counts(cmd.count);
        Ok(
            CommandAction::Draw(
                DrawCall {
                    setup,
                    primitive_type: PrimitiveType::TriangleList,
                    base_vertex: cmd.vtx_offset as u32,
                    min_vertex_index: 0,
                    n_vertices,
                    start_index: cmd.idx_offset as u32,
                    n_primitives,
                    index_buffer: self.ibuf.buffer(),
                    index_element_size: IndexElementSize::Bits16,
                },
            ),
        )
    }

    /// What to do for the element commands of a draw list, in order, up to the first command
    /// that fails; the failing command's texture id, if one fails. The commands before it are
    /// carried out; the renderer stops there.
    pub fn plan_commands(&self, cmds: &Vec<DrawCommand>, font: TextureHandle) -> (r: (
        Vec<CommandAction>,
        Option<usize>,
    ))
        requires
            forall|i: int| 0 <= i < cmds@.len() ==> command_counts_fit(#[trigger] cmds@[i]),
        ensures
            r.0@.len() <= cmds@.len(),
            forall|i: int|
                0 <= i < r.0@.len() ==> is_action_of(*self, cmds@[i], font, Ok(#[trigger] r.0@[i])),
            r.1 is None ==> r.0@.len() == cmds@.len(),
            r.1 matches Some(id) ==> r.0@.len() < cmds@.len() && is_action_of(
                *self,
                cmds@[r.0@.len() as int],
                font,
                Err(id),
            ),
    {
        let mut actions: Vec<CommandAction> = Vec::new();
        let mut i: usize = 0;
        while i < cmds.len()
            invariant
                i <= cmds@.len(),
                actions@.len() == i,
                forall|k: int| 0 <= k < cmds@.len() ==> command_counts_fit(#[trigger] cmds@[k]),
                forall|k: int|
                    0 <= k < i ==> is_action_of(*self, cmds@[k], font, Ok(#[trigger] actions@[k])),
            decreases cmds@.len() - i,
        {
            match self.command_action(&cmds[i], font) {
                Ok(a) => {
                    actions.push(a);
                },
                Err(id) => {
                    return (actions, Some(id));
                },
            }
            i = i + 1;
        }
        (actions, None)
    }
}

/// An element draw command of an ImGui draw list, before its texture is looked up
#[derive(Debug, Clone, Copy)]
pub struct ElementCommand {
    /// Whether the clip rectangle meets the framebuffer
    pub clip_visible: bool,
    /// Scissor box of the clip rectangle
    pub scissor: Rect,
    /// ImGui texture id of the command
    pub texture_id: usize,
    /// Number of indices
    pub count: usize,
    /// First vertex of the command in the vertex buffer
    pub vtx_offset: usize,
    /// First index of the command in the index buffer
    pub idx_offset: usize,
}

/// The draw command of an element command, with the texture registered under its id (the font
/// id is not looked up)
pub open spec fn looked_up(e: ElementCommand, textures: Map<usize, TextureHandle>) -> DrawCommand {
    DrawCommand {
        clip_visible: e.clip_visible,
        scissor: e.scissor,
        texture_id: e.texture_id,
        registered: if e.texture_id == FONT_TEXTURE_ID || !textures.dom().contains(e.texture_id) {
            None
        } else {
            Some(textures[e.texture_id])
        },
        count: e.count,
        vtx_offset: e.vtx_offset,
        idx_offset: e.idx_offset,
    }
}

/// The ImGui renderer: registered textures, the font atlas texture and the GPU batch
pub struct ImGuiRenderer {
    textures: imgui::Textures<RcTexture2d>,
    font_texture: RcTexture2d,
    batch: Batch,
}

impl ImGuiRenderer {
    /// The registered textures
    pub closed spec fn registered(&self) -> Map<usize, TextureHandle> {
        registered_textures(self.textures)
    }

    /// The device texture of the font atlas
    pub closed spec fn font(&self) -> TextureHandle {
        self.font_texture.texture.raw
    }

    /// The GPU batch
    pub closed spec fn batch(&self) -> Batch {
        self.batch
    }

    /// Renderer with no registered texture, the given font atlas texture and batch
    pub fn new(font_texture: RcTexture2d, batch: Batch) -> (r: ImGuiRenderer)
        ensures
            r.registered() == Map::<usize, TextureHandle>::empty(),
            r.font() == font_texture.texture.raw,
            r.batch() == batch,
    {
        let textures = textures_new();
        assert(registered_textures(textures) =~= Map::<usize, TextureHandle>::empty());
        ImGuiRenderer { textures, font_texture, batch }
    }

    /// The table of registered textures, for registering and replacing textures
    pub fn textures_mut(&mut self) -> (r: &mut imgui::Textures<RcTexture2d>)
        ensures
            registered_textures(*r) == old(self).registered(),
            final(self).registered() == registered_textures(*final(r)),
            final(self).font() == old(self).font(),
            final(self).batch() == old(self).batch(),
    {
        &mut self.textures
    }

    /// The font atlas texture (non-premultiplied alpha)
    pub fn font_texture(&self) -> (r: &TextureData2d)
        ensures
            r.raw == self.font(),
    {
        &self.font_texture.texture
    }

    /// Prepares uploading a draw list; see `Batch::set_draw_list`
    pub fn set_draw_list(
        &mut self,
        n_vertices: usize,
        vertex_size: usize,
        n_indices: usize,
        index_size: usize,
    ) -> (r: (Option<usize>, Option<usize>))
        requires
            required_len(VERT_SIZE as int, n_vertices as int, vertex_size as int) <= usize::MAX,
            required_len(INDEX_SIZE as int, n_indices as int, index_size as int) <= usize::MAX,
        ensures
            final(self).registered() == old(self).registered(),
            final(self).font() == old(self).font(),
            final(self).batch().vbuf.buf() == old(self).batch().vbuf.buf(),
            final(self).batch().ibuf.buf() == old(self).batch().ibuf.buf(),
            final(self).batch().effect == old(self).batch().effect,
            final(self).batch().effect_data == old(self).batch().effect_data,
            final(self).batch().vbuf.capacity() >= required_len(
                VERT_SIZE as int,
                n_vertices as int,
                vertex_size as int,
            ),
            final(self).batch().ibuf.capacity() >= required_len(
                INDEX_SIZE as int,
                n_indices as int,
                index_size as int,
            ),
            r.0 is Some <==> required_len(VERT_SIZE as int, n_vertices as int, vertex_size as int)
                > old(self).batch().vbuf.capacity(),
            r.1 is Some <==> required_len(INDEX_SIZE as int, n_indices as int, index_size as int)
                > old(self).batch().ibuf.capacity(),
            r.0 matches Some(len) ==> len == final(self).batch().vbuf.capacity(),
            r.1 matches Some(len) ==> len == final(self).batch().ibuf.capacity(),
            r.0 is None ==> final(self).batch().vbuf.capacity() == old(self).batch().vbuf.capacity(),
            r.1 is None ==> final(self).batch().ibuf.capacity() == old(self).batch().ibuf.capacity(),
    {
        self.batch.set_draw_list(n_vertices, vertex_size, n_indices, index_size)
    }

    /// What to do for the element commands of a draw list, in order: each command draws with
    /// the font atlas for the font id, or with the texture registered under its id; it is
    /// skipped when clipped away. The first command whose id is neither the font id nor
    /// registered stops the list, and its id is returned as the error.
    pub fn plan_commands(&self, cmds: &Vec<ElementCommand>) -> (r: (
        Vec<CommandAction>,
        Option<usize>,
    ))
        requires
            forall|i: int| 0 <= i < cmds@.len() ==> (#[trigger] cmds@[i].count as u32) * 2 <= u32::MAX,
        ensures
            r.0@.len() <= cmds@.len(),
            forall|i: int|
                0 <= i < r.0@.len() ==> is_action_of(
                    self.batch(),
                    looked_up(cmds@[i], self.registered()),
                    self.font(),
                    Ok(#[trigger] r.0@[i]),
                ),
            r.1 is None ==> r.0@.len() == cmds@.len(),
            r.1 matches Some(id) ==> r.0@.len() < cmds@.len() && is_action_of(
                self.batch(),
                looked_up(cmds@[r.0@.len() as int], self.registered()),
                self.font(),
                Err(id),
            ),
    {
        let font = self.font_texture.texture.raw;
        let mut actions: Vec<CommandAction> = Vec::new();
        let mut i: usize = 0;
        while i < cmds.len()
            invariant
                i <= cmds@.len(),
                actions@.len() == i,
                font == self.font(),
                forall|k: int| 0 <= k < cmds@.len() ==> (#[trigger] cmds@[k].count as u32) * 2 <= u32::MAX,
                forall|k: int|
                    0 <= k < i ==> is_action_of(
                        self.batch(),
                        looked_up(cmds@[k], self.registered()),
                        self.font(),
                        Ok(#[trigger] actions@[k]),
                    ),
            decreases cmds@.len() - i,
        {
            let e = cmds[i];
            let registered = if is_font_texture(e.texture_id) {
                None
            } else {
                textures_get(&self.textures, e.texture_id)
            };
            let cmd = DrawCommand {
                clip_visible: e.clip_visible,
                scissor: e.scissor,
                texture_id: e.texture_id,
                registered,
                count: e.count,
                vtx_offset: e.vtx_offset,
                idx_offset: e.idx_offset,
            };
            assert(cmd == looked_up(cmds@[i as int], self.registered()));
            match self.batch.command_action(&cmd, font) {
                Ok(a) => {
                    actions.push(a);
                },
                Err(id) => {
                    return (actions, Some(id));
                },
            }
            i = i + 1;
        }
        (actions, None)
    }
}

/// Vertex and triangle counts of a draw command of `count` indices: two thirds of the indices,
/// computed in 32 bits (a quad has four vertices and six indices), and a third of them
pub fn draw_counts(count: usize) -> (r: (u32, u32))
    requires
        (count as u32) * 2 <= u32::MAX,
    ensures
        r.0 == (count as u32) * 2 / 3,
        r.1 == (count / 3) as u32,
{
    let n_vertices = count as u32 * 2 / 3;
    let n_primitives = count / 3;
    (n_vertices, n_primitives as u32)
}

/// Whether a draw command's texture id is the font atlas rather than a registered texture
pub fn is_font_texture(texture_id: usize) -> (r: bool)
    ensures
        r == (texture_id == FONT_TEXTURE_ID),
{
    texture_id == FONT_TEXTURE_ID
}

} // verus!
