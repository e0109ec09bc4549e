//! Scenes and the per-frame protocol. A scene owns its meshes and, for the
//! animated variant, a time-carrying uniform payload. `initialize_buffers`
//! yields every byte image to upload once, `tick` advances the payload and
//! yields the queued uniform write, and `render` yields the full frame plan:
//! pipeline state, clear color, and the draw commands in mesh order.

use vstd::prelude::*;
use crate::geometry::{
    Geometry, GeometryError, MeshUpload, DrawCommand, VertexBufferLayout, VertexAttribute,
    VertexFormat, VertexStepMode, Vertex, draw_commands_spec, u32_le_bytes, vertices_bytes,
    indices_bytes, VERTEX_STRIDE,
};
use crate::renderer::{SurfaceConfig, SurfaceFormat};

verus! {

/// Byte size of the frame-state uniform payload: one 32-bit lane.
pub const FRAME_STATE_SIZE: u64 = 4;

/// Bit patterns of the fixed background color (r, g, b, a), 64-bit lanes.
pub const CLEAR_R_BITS: u64 = 0x3FB999999999999A;

pub const CLEAR_G_BITS: u64 = 0x3FC999999999999A;

pub const CLEAR_B_BITS: u64 = 0x3FD3333333333333;

pub const CLEAR_A_BITS: u64 = 0x3FF0000000000000;

/// The uniform payload read by the vertex stage: elapsed seconds since scene
/// construction, held as the IEEE-754 bit pattern of a 32-bit value.
#[derive(Clone, Copy, PartialEq, Eq, Structural, Debug)]
pub struct FrameState {
    pub time_bits: u32,
}

/// One queued write into the GPU-visible uniform buffer.
pub struct UniformWrite {
    pub offset: u64,
    pub bytes: Vec<u8>,
}

/// The one uniform buffer a buffered scene allocates at setup.
#[derive(Clone, Copy, PartialEq, Eq, Structural, Debug)]
pub struct UniformBufferDesc {
    pub size: u64,
    pub copy_dst: bool,
    pub uniform: bool,
    pub mapped_at_creation: bool,
}

/// Everything `initialize_buffers` asks the device to allocate: one upload
/// per newly buffered mesh, in mesh order, and the uniform buffer if the
/// scene carries one and it is not yet allocated.
pub struct SceneUploads {
    pub mesh_uploads: Vec<MeshUpload>,
    pub uniform_buffer: Option<UniformBufferDesc>,
}

/// Primitive assembly of the pipeline.
#[derive(Clone, Copy, PartialEq, Eq, Structural, Debug)]
pub enum PrimitiveTopology {
    TriangleList,
}

/// Which winding counts as front-facing.
#[derive(Clone, Copy, PartialEq, Eq, Structural, Debug)]
pub enum FrontFace {
    Ccw,
    Cw,
}

/// Which faces the rasterizer culls.
#[derive(Clone, Copy, PartialEq, Eq, Structural, Debug)]
pub enum CullMode {
    Disabled,
    Front,
    Back,
}

/// How polygons are rasterized.
#[derive(Clone, Copy, PartialEq, Eq, Structural, Debug)]
pub enum PolygonMode {
    Fill,
}

/// Blending of the one color target.
#[derive(Clone, Copy, PartialEq, Eq, Structural, Debug)]
pub enum BlendMode {
    Replace,
}

/// The fixed-function pipeline built for one frame: shader entry points, the
/// per-vertex layout, and rasterization state against the one color target.
pub struct PipelineDesc {
    pub vertex_entry: String,
    pub fragment_entry: String,
    pub vertex_layouts: Vec<VertexBufferLayout>,
    pub format: SurfaceFormat,
    pub blend: BlendMode,
    pub topology: PrimitiveTopology,
    pub front_face: FrontFace,
    pub cull_mode: CullMode,
    pub polygon_mode: PolygonMode,
    pub depth_stencil: bool,
    pub sample_count: u32,
}

/// The background color the pass clears to, as 64-bit lane bit patterns.
#[derive(Clone, Copy, PartialEq, Eq, Structural, Debug)]
pub struct ClearColor {
    pub r_bits: u64,
    pub g_bits: u64,
    pub b_bits: u64,
    pub a_bits: u64,
}

/// One frame, fully decided: the pipeline to build, whether the uniform bind
/// group is bound at group 0, the clear color, and the draw commands in mesh
/// order.
pub struct FramePlan {
    pub pipeline: PipelineDesc,
    pub bind_uniform: bool,
    pub clear_color: ClearColor,
    pub commands: Vec<DrawCommand>,
}

/// The static test scene: meshes only, no per-frame state.
pub struct StaticScene {
    pub geometries: Vec<Geometry>,
}

/// The animated scene: meshes plus a time-varying uniform payload.
/// `state_buffer` says whether the uniform buffer has been allocated.
pub struct TestScene {
    pub geometries: Vec<Geometry>,
    pub state: FrameState,
    pub state_buffer: bool,
}

impl TestScene {
    /// A fresh animated scene: elapsed time zero, no buffers allocated yet.
    pub fn new(geometries: Vec<Geometry>) -> (r: TestScene)
        ensures
            r.geometries@ == geometries@,
            r.state.time_bits == 0,
            !r.state_buffer,
    {
        TestScene { geometries, state: FrameState { time_bits: 0 }, state_buffer: false }
    }
}

/// The closed set of scene variants, dispatched by one interface.
pub enum Scene {
    Static(StaticScene),
    Animated(TestScene),
}

/// Every mesh of the sequence has uploaded buffers.
pub open spec fn all_buffered(geos: Seq<Geometry>) -> bool {
    forall|k: int| 0 <= k < geos.len() ==> geos[k].is_buffered()
}

/// No mesh of the sequence has uploaded buffers.
pub open spec fn none_buffered(geos: Seq<Geometry>) -> bool {
    forall|k: int| 0 <= k < geos.len() ==> !geos[k].is_buffered()
}

/// The draw commands of a frame: each mesh's protocol, in sequence order.
pub open spec fn scene_commands(geos: Seq<Geometry>) -> Seq<DrawCommand>
    decreases geos.len(),
{
    if geos.len() == 0 {
        Seq::empty()
    } else {
        draw_commands_spec(geos[0]) + scene_commands(geos.drop_first())
    }
}

proof fn lemma_scene_commands_push(geos: Seq<Geometry>, g: Geometry)
    ensures
        scene_commands(geos.push(g)) == scene_commands(geos) + draw_commands_spec(g),
    decreases geos.len(),
{
    if geos.len() == 0 {
        assert(geos.push(g).drop_first() =~= geos);
        assert(scene_commands(geos.push(g)) =~= scene_commands(geos) + draw_commands_spec(g));
    } else {
        assert(geos.push(g).drop_first() =~= geos.drop_first().push(g));
        lemma_scene_commands_push(geos.drop_first(), g);
        assert(scene_commands(geos.push(g)) =~= scene_commands(geos) + draw_commands_spec(g));
    }
}

/// Uploads every not-yet-buffered mesh of the sequence, in order, and leaves
/// every mesh buffered with its data unchanged. A first call on unbuffered
/// meshes yields one exact upload per mesh; a call on already buffered meshes
/// yields nothing and changes nothing.
fn init_geometries(geos: &mut Vec<Geometry>) -> (ups: Vec<MeshUpload>)
    ensures
        final(geos)@.len() == old(geos)@.len(),
        forall|k: int| 0 <= k < old(geos)@.len() ==> {
            &&& (#[trigger] final(geos)@[k]).points@ == old(geos)@[k].points@
            &&& final(geos)@[k].indices@ == old(geos)@[k].indices@
            &&& final(geos)@[k].is_buffered()
        },
        none_buffered(old(geos)@) ==> ({
            &&& ups@.len() == old(geos)@.len()
            &&& forall|k: int| 0 <= k < old(geos)@.len() ==> {
                &&& (#[trigger] ups@[k]).vertex_bytes@ == vertices_bytes(old(geos)@[k].points@)
                &&& ups@[k].index_bytes@ == indices_bytes(old(geos)@[k].indices@)
            }
        }),
        all_buffered(old(geos)@) ==> ups@.len() == 0 && final(geos)@ == old(geos)@,
{
    let mut ups: Vec<MeshUpload> = Vec::new();
    let mut i: usize = 0;
    while i < geos.len()
        invariant
            i <= geos@.len(),
            geos@.len() == old(geos)@.len(),
            forall|k: int| i <= k < geos@.len() ==> #[trigger] geos@[k] == old(geos)@[k],
            forall|k: int| 0 <= k < i ==> {
                &&& (#[trigger] geos@[k]).points@ == old(geos)@[k].points@
                &&& geos@[k].indices@ == old(geos)@[k].indices@
                &&& geos@[k].is_buffered()
            },
            none_buffered(old(geos)@) ==> ({
                &&& ups@.len() == i
                &&& forall|k: int| 0 <= k < i ==> {
                    &&& (#[trigger] ups@[k]).vertex_bytes@ == vertices_bytes(old(geos)@[k].points@)
                    &&& ups@[k].index_bytes@ == indices_bytes(old(geos)@[k].indices@)
                }
            }),
            all_buffered(old(geos)@) ==> ups@.len() == 0 && geos@ == old(geos)@,
        decreases geos@.len() - i,
    {
        let ghost pre = geos@;
        let mut g = geos.remove(i);
        let up = g.initialize_buffers();
        match up {
            Some(u) => ups.push(u),
            None => {},
        }
        geos.insert(i, g);
        proof {
            assert(geos@ =~= pre.update(i as int, geos@[i as int]));
        }
        i = i + 1;
    }
    ups
}

/// The draw commands of every mesh in order; refused with `BuffersMissing`
/// if and only if some mesh is not buffered.
fn render_commands(geos: &Vec<Geometry>) -> (r: Result<Vec<DrawCommand>, GeometryError>)
    ensures
        r is Ok <==> all_buffered(geos@),
        r matches Ok(cmds) ==> cmds@ == scene_commands(geos@),
        r is Err ==> r == Err::<Vec<DrawCommand>, GeometryError>(GeometryError::BuffersMissing),
{
    let mut commands: Vec<DrawCommand> = Vec::new();
    let mut i: usize = 0;
    while i < geos.len()
        invariant
            i <= geos@.len(),
            forall|k: int| 0 <= k < i ==> (#[trigger] geos@[k]).is_buffered(),
            commands@ == scene_commands(geos@.take(i as int)),
        decreases geos@.len() - i,
    {
        match geos[i].render() {
            Ok(mut c) => {
                commands.append(&mut c);
            },
            Err(e) => {
                return Err(e);
            },
        }
        proof {
            assert(geos@.take(i + 1 as int) =~= geos@.take(i as int).push(geos@[i as int]));
            lemma_scene_commands_push(geos@.take(i as int), geos@[i as int]);
        }
        i = i + 1;
    }
    proof {
        assert(geos@.take(geos@.len() as int) =~= geos@);
    }
    Ok(commands)
}

/// The pipeline of the render protocol: the `vs_main`/`fs_main` entry
/// points, the vertex layout of `Vertex::desc`, triangle-list topology,
/// counter-clockwise front faces, the asked-for cull mode, fill rasterization,
/// no depth/stencil, one sample, and replace blending into the one color
/// target of the given format.
fn build_pipeline(format: SurfaceFormat, cull_mode: CullMode) -> (p: PipelineDesc)
    ensures
        p.vertex_entry@ == "vs_main"@,
        p.fragment_entry@ == "fs_main"@,
        p.vertex_layouts@.len() == 1,
        p.vertex_layouts@[0].array_stride == VERTEX_STRIDE,
        p.vertex_layouts@[0].step_mode == VertexStepMode::PerVertex,
        p.vertex_layouts@[0].attributes@.len() == 2,
        p.vertex_layouts@[0].attributes@[0] == (VertexAttribute {
            offset: 0,
            shader_location: 0,
            format: VertexFormat::Float32x3,
        }),
        p.vertex_layouts@[0].attributes@[1] == (VertexAttribute {
            offset: 12,
            shader_location: 1,
            format: VertexFormat::Float32x3,
        }),
        p.format == format,
        p.blend == BlendMode::Replace,
        p.topology == PrimitiveTopology::TriangleList,
        p.front_face == FrontFace::Ccw,
        p.cull_mode == cull_mode,
        p.polygon_mode == PolygonMode::Fill,
        !p.depth_stencil,
        p.sample_count == 1,
{
    let mut vertex_layouts: Vec<VertexBufferLayout> = Vec::new();
    vertex_layouts.push(Vertex::desc());
    PipelineDesc {
        vertex_entry: "vs_main".to_string(),
        fragment_entry: "fs_main".to_string(),
        vertex_layouts,
        format,
        blend: BlendMode::Replace,
        topology: PrimitiveTopology::TriangleList,
        front_face: FrontFace::Ccw,
        cull_mode,
        polygon_mode: PolygonMode::Fill,
        depth_stencil: false,
        sample_count: 1,
    }
}

impl Scene {
    /// The meshes this scene owns, in draw order.
    pub open spec fn geometries_spec(self) -> Seq<Geometry> {
        match self {
            Scene::Static(s) => s.geometries@,
            Scene::Animated(t) => t.geometries@,
        }
    }

    /// Back faces are culled in the animated scene; the static scene draws
    /// both faces.
    pub open spec fn cull_mode_spec(self) -> CullMode {
        match self {
            Scene::Static(_) => CullMode::Disabled,
            Scene::Animated(_) => CullMode::Back,
        }
    }

    /// Every buffer the scene needs is allocated: all meshes, and the
    /// uniform buffer of the animated variant.
    pub open spec fn fully_buffered(self) -> bool {
        &&& all_buffered(self.geometries_spec())
        &&& (self matches Scene::Animated(t) ==> t.state_buffer)
    }

    /// Nothing is allocated yet: the state before the first upload.
    pub open spec fn fully_unbuffered(self) -> bool {
        &&& none_buffered(self.geometries_spec())
        &&& (self matches Scene::Animated(t) ==> !t.state_buffer)
    }

    /// Uploads all owned meshes' buffers once. After the call everything is
    /// buffered and the mesh data is unchanged. On the first call the result
    /// carries one exact byte image per mesh, in order, and — for the
    /// animated variant — the 4-byte uniform buffer to allocate; a repeated
    /// call yields nothing and changes nothing, so it cannot reallocate.
    pub fn initialize_buffers(&mut self) -> (up: SceneUploads)
        ensures
            final(self).fully_buffered(),
            final(self).geometries_spec().len() == old(self).geometries_spec().len(),
            forall|k: int| 0 <= k < old(self).geometries_spec().len() ==> {
                &&& (#[trigger] final(self).geometries_spec()[k]).points@ == old(
                    self,
                ).geometries_spec()[k].points@
                &&& final(self).geometries_spec()[k].indices@ == old(
                    self,
                ).geometries_spec()[k].indices@
            },
            (*old(self)) matches Scene::Static(_) ==> ((*final(self)) matches Scene::Static(_)
                && up.uniform_buffer is None),
            (*old(self)) matches Scene::Animated(t) ==> ((*final(self)) matches Scene::Animated(t2)
                && t2.state == t.state && t2.state_buffer),
            old(self).fully_unbuffered() ==> ({
                &&& up.mesh_uploads@.len() == old(self).geometries_spec().len()
                &&& forall|k: int| 0 <= k < old(self).geometries_spec().len() ==> {
                    &&& (#[trigger] up.mesh_uploads@[k]).vertex_bytes@ == vertices_bytes(
                        old(self).geometries_spec()[k].points@,
                    )
                    &&& up.mesh_uploads@[k].index_bytes@ == indices_bytes(
                        old(self).geometries_spec()[k].indices@,
                    )
                }
                &&& ((*old(self)) matches Scene::Animated(_) ==> up.uniform_buffer == Some(
                    UniformBufferDesc {
                        size: FRAME_STATE_SIZE,
                        copy_dst: true,
                        uniform: true,
                        mapped_at_creation: false,
                    },
                ))
            }),
            old(self).fully_buffered() ==> (up.mesh_uploads@.len() == 0 && up.uniform_buffer
                is None && final(self).geometries_spec() == old(self).geometries_spec()),
    {
        match self {
            Scene::Static(s) => {
                let mesh_uploads = init_geometries(&mut s.geometries);
                SceneUploads { mesh_uploads, uniform_buffer: None }
            },
            Scene::Animated(t) => {
                let mesh_uploads = init_geometries(&mut t.geometries);
                let uniform_buffer = if t.state_buffer {
                    None
                } else {
                    t.state_buffer = true;
                    Some(UniformBufferDesc {
                        size: FRAME_STATE_SIZE,
                        copy_dst: true,
                        uniform: true,
                        mapped_at_creation: false,
                    })
                };
                SceneUploads { mesh_uploads, uniform_buffer }
            },
        }
    }

    /// Advances the frame state to the given elapsed time (the bit pattern
    /// of elapsed seconds) and yields the uniform write to queue before this
    /// frame's submission. The static scene has no state and yields nothing;
    /// the animated scene's payload carries exactly the given time, and the
    /// write holds its little-endian bytes at offset 0 whenever the uniform
    /// buffer exists.
    pub fn tick(&mut self, elapsed_bits: u32) -> (w: Option<UniformWrite>)
        ensures
            (*old(self)) matches Scene::Static(_) ==> (*final(self) == *old(self) && w is None),
            (*old(self)) matches Scene::Animated(t) ==> ((*final(self)) matches Scene::Animated(t2)
                && t2.geometries@ == t.geometries@ && t2.state_buffer == t.state_buffer
                && t2.state.time_bits == elapsed_bits),
            (*old(self)) matches Scene::Animated(t) && t.state_buffer ==> (w matches Some(uw)
                && uw.offset == 0 && uw.bytes@ == u32_le_bytes(elapsed_bits)),
            (*old(self)) matches Scene::Animated(t) && !t.state_buffer ==> w is None,
    {
        match self {
            Scene::Static(_) => None,
            Scene::Animated(t) => {
                t.state.time_bits = elapsed_bits;
                if t.state_buffer {
                    let mut bytes: Vec<u8> = Vec::new();
                    bytes.push((elapsed_bits & 0xff) as u8);
                    bytes.push(((elapsed_bits >> 8) & 0xff) as u8);
                    bytes.push(((elapsed_bits >> 16) & 0xff) as u8);
                    bytes.push(((elapsed_bits >> 24) & 0xff) as u8);
                    proof {
                        assert(bytes@ =~= u32_le_bytes(elapsed_bits));
                    }
                    Some(UniformWrite { offset: 0, bytes })
                } else {
                    None
                }
            },
        }
    }

    /// The plan this scene owes for one frame against the given
    /// configuration: the pipeline of the render protocol on the surface's
    /// format and the scene's cull mode, the fixed clear color, the uniform
    /// bind group exactly for the animated variant, and every mesh's draw
    /// commands in order.
    pub open spec fn valid_frame_plan(self, config: SurfaceConfig, plan: FramePlan) -> bool {
        &&& plan.pipeline.vertex_entry@ == "vs_main"@
        &&& plan.pipeline.fragment_entry@ == "fs_main"@
        &&& plan.pipeline.vertex_layouts@.len() == 1
        &&& plan.pipeline.vertex_layouts@[0].array_stride == VERTEX_STRIDE
        &&& plan.pipeline.vertex_layouts@[0].step_mode == VertexStepMode::PerVertex
        &&& plan.pipeline.vertex_layouts@[0].attributes@.len() == 2
        &&& plan.pipeline.vertex_layouts@[0].attributes@[0] == (VertexAttribute {
            offset: 0,
            shader_location: 0,
            format: VertexFormat::Float32x3,
        })
        &&& plan.pipeline.vertex_layouts@[0].attributes@[1] == (VertexAttribute {
            offset: 12,
            shader_location: 1,
            format: VertexFormat::Float32x3,
        })
        &&& plan.pipeline.format == config.format
        &&& plan.pipeline.blend == BlendMode::Replace
        &&& plan.pipeline.topology == PrimitiveTopology::TriangleList
        &&& plan.pipeline.front_face == FrontFace::Ccw
        &&& plan.pipeline.cull_mode == self.cull_mode_spec()
        &&& plan.pipeline.polygon_mode == PolygonMode::Fill
        &&& !plan.pipeline.depth_stencil
        &&& plan.pipeline.sample_count == 1
        &&& plan.bind_uniform == (self matches Scene::Animated(_))
        &&& plan.clear_color == (ClearColor {
            r_bits: CLEAR_R_BITS,
            g_bits: CLEAR_G_BITS,
            b_bits: CLEAR_B_BITS,
            a_bits: CLEAR_A_BITS,
        })
        &&& plan.commands@ == scene_commands(self.geometries_spec())
    }

    /// Decides one frame in full. Succeeds if and only if everything the
    /// scene needs is buffered, with exactly the plan the scene owes;
    /// otherwise refused with `BuffersMissing` and nothing is drawn.
    pub fn render(&self, config: &SurfaceConfig) -> (r: Result<FramePlan, GeometryError>)
        ensures
            r is Ok <==> self.fully_buffered(),
            r matches Ok(plan) ==> self.valid_frame_plan(*config, plan),
            r is Err ==> r == Err::<FramePlan, GeometryError>(GeometryError::BuffersMissing),
    {
        let clear_color = ClearColor {
            r_bits: CLEAR_R_BITS,
            g_bits: CLEAR_G_BITS,
            b_bits: CLEAR_B_BITS,
            a_bits: CLEAR_A_BITS,
        };
        match self {
            Scene::Static(s) => {
                match render_commands(&s.geometries) {
                    Ok(commands) => Ok(FramePlan {
                        pipeline: build_pipeline(config.format, CullMode::Disabled),
                        bind_uniform: false,
                        clear_color,
                        commands,
                    }),
                    Err(e) => Err(e),
                }
            },
            Scene::Animated(t) => {
                if !t.state_buffer {
                    return Err(GeometryError::BuffersMissing);
                }
                match render_commands(&t.geometries) {
                    Ok(commands) => Ok(FramePlan {
                        pipeline: build_pipeline(config.format, CullMode::Back),
                        bind_uniform: true,
                        clear_color,
                        commands,
                    }),
                    Err(e) => Err(e),
                }
            },
        }
    }

    /// One redraw request: the tick completes before the frame is decided,
    /// so the returned uniform write — carrying exactly the given elapsed
    /// time — is queued before the plan it accompanies is submitted. The
    /// plan is the one the ticked scene owes, or `BuffersMissing` exactly
    /// when something is not buffered.
    pub fn frame(&mut self, config: &SurfaceConfig, elapsed_bits: u32) -> (r: (
        Option<UniformWrite>,
        Result<FramePlan, GeometryError>,
    ))
        ensures
            (*old(self)) matches Scene::Static(_) ==> (*final(self) == *old(self) && r.0 is None),
            (*old(self)) matches Scene::Animated(t) ==> ((*final(self)) matches Scene::Animated(t2)
                && t2.geometries@ == t.geometries@ && t2.state_buffer == t.state_buffer
                && t2.state.time_bits == elapsed_bits),
            (*old(self)) matches Scene::Animated(t) && t.state_buffer ==> (r.0 matches Some(uw)
                && uw.offset == 0 && uw.bytes@ == u32_le_bytes(elapsed_bits)),
            (*old(self)) matches Scene::Animated(t) && !t.state_buffer ==> r.0 is None,
            r.1 is Ok <==> final(self).fully_buffered(),
            r.1 matches Ok(plan) ==> final(self).valid_frame_plan(*config, plan),
            r.1 is Err ==> r.1 == Err::<FramePlan, GeometryError>(GeometryError::BuffersMissing),
    {
        let write = self.tick(elapsed_bits);
        let plan = self.render(config);
        (write, plan)
    }
}

} // verus!
