use vstd::prelude::*;
use vstd::arithmetic::div_mod::{lemma_add_mod_noop, lemma_div_is_ordered, lemma_mod_bound, lemma_small_mod};
use vstd::arithmetic::mul::lemma_mul_inequality;
use crate::RenderError;
use crate::math::{Mat4Bits, ONE_BITS, Vec3Bits, le_bytes_of_words, look_at, look_at_matrix, mat4_mul, mat4_product, orbit_point_at, perspective, words_to_le_bytes};
use crate::mesh::{Mesh, matrices_of};

verus! {

/// The slot of the camera uniform in the pipeline's binding contract.
pub const CAMERA_BIND_GROUP: u32 = 0;

/// The slot of the per-mesh instance storage in the binding contract.
pub const INSTANCES_BIND_GROUP: u32 = 1;

/// The slot of the light uniform in the binding contract.
pub const LIGHT_BIND_GROUP: u32 = 2;

/// Raw 32-bit pattern of the vertical field of view: forty-five degrees,
/// expressed in radians as the projection expects.
pub const FOV_BITS: u32 = 0x3F49_0FDB;

/// Raw 32-bit pattern of the near plane distance, one tenth.
pub const NEAR_BITS: u32 = 0x3DCC_CCCD;

/// Raw 32-bit pattern of the far plane distance, one hundred.
pub const FAR_BITS: u32 = 0x42C8_0000;

/// Raw 32-bit pattern of the single-precision value two.
pub const TWO_BITS: u32 = 0x4000_0000;

/// Raw 32-bit pattern of the light orbit's radius, fifteen.
pub const LIGHT_RADIUS_BITS: u32 = 0x4170_0000;

/// Raw 32-bit pattern of the light orbit's elevation, fifteen.
pub const LIGHT_ELEVATION_BITS: u32 = 0x4170_0000;

/// The light completes one full revolution per this many nanoseconds.
pub const LIGHT_PERIOD_NS: u64 = 5_000_000_000;

/// Thousandths of a degree in a full revolution.
pub const MILLIDEG_PER_TURN: u64 = 360_000;

/// The camera sits here, looking at the origin with the vertical axis up.
pub open spec fn camera_eye() -> Seq<u32> {
    seq![0u32, ONE_BITS, TWO_BITS]
}

/// The point the camera looks at: the origin.
pub open spec fn camera_target() -> Seq<u32> {
    seq![0u32, 0u32, 0u32]
}

/// The camera's up direction: the vertical unit vector.
pub open spec fn camera_up() -> Seq<u32> {
    seq![0u32, ONE_BITS, 0u32]
}

/// The light's orbital angle for a time within the period, in thousandths
/// of a degree.
pub open spec fn light_angle_millideg(elapsed_ns: int) -> int {
    elapsed_ns * (MILLIDEG_PER_TURN as int) / (LIGHT_PERIOD_NS as int)
}

/// The orbital time reached from `elapsed` after `delta` more nanoseconds:
/// time on the orbit wraps at the period.
pub open spec fn advanced_light_time(elapsed: int, delta: int) -> int {
    (elapsed + delta) % (LIGHT_PERIOD_NS as int)
}

/// What a render pass does with the previous contents of an attachment.
#[derive(Clone, Copy, Debug, PartialEq, Eq, Structural)]
pub enum LoadAction {
    /// Discard the previous contents: color clears to opaque black, depth
    /// clears to the far value.
    Clear,
    /// Keep the previous contents and accumulate over them.
    Load,
}

/// One indexed, instanced draw covering every instance of one mesh.
pub struct DrawCall {
    /// Position of the drawn mesh in the frame's mesh order.
    pub mesh_index: usize,
    /// How many indices the draw covers.
    pub index_count: u32,
    /// How many instances the draw covers.
    pub instance_count: u32,
    /// The per-instance matrices, in instance order; this sequence's layout
    /// is uploaded verbatim to the per-mesh instance storage buffer bound
    /// at `INSTANCES_BIND_GROUP`.
    pub instance_matrices: Vec<Mat4Bits>,
}

/// All the words of a sequence of matrices, sixteen per matrix, in matrix
/// order.
pub open spec fn words_of_matrices(matrices: Seq<Mat4Bits>) -> Seq<u32>
    decreases matrices.len(),
{
    if matrices.len() == 0 {
        Seq::empty()
    } else {
        words_of_matrices(matrices.drop_last()) + matrices.last()@
    }
}

impl DrawCall {
    /// The instance data exactly as the per-mesh storage buffer receives
    /// it: each matrix's sixteen words in matrix order, each word in
    /// little-endian byte order.
    pub fn instance_buffer_bytes(&self) -> (r: Vec<u8>)
        ensures
            r@ == le_bytes_of_words(words_of_matrices(self.instance_matrices@)),
    {
        let ghost all = self.instance_matrices@;
        let mut words: Vec<u32> = Vec::new();
        let mut i: usize = 0;
        proof {
            assert(all.take(0) =~= Seq::<Mat4Bits>::empty());
        }
        while i < self.instance_matrices.len()
            invariant
                i <= all.len(),
                all == self.instance_matrices@,
                words@ == words_of_matrices(all.take(i as int)),
            decreases all.len() - i,
        {
            let m = &self.instance_matrices[i];
            let ghost prefix = words@;
            let mut j: usize = 0;
            proof {
                assert(prefix + m@.take(0) =~= prefix);
            }
            while j < 16
                invariant
                    j <= 16,
                    all == self.instance_matrices@,
                    i < all.len(),
                    m == all[i as int],
                    prefix == words_of_matrices(all.take(i as int)),
                    words@ == prefix + m@.take(j as int),
                decreases 16 - j,
            {
                words.push(m.words[j]);
                proof {
                    assert(prefix + m@.take(j as int + 1) =~= (prefix + m@.take(j as int)).push(m@[j as int]));
                }
                j = j + 1;
            }
            proof {
                assert(prefix + m@.take(16) =~= prefix + m@);
                assert(all.take(i as int + 1).drop_last() =~= all.take(i as int));
                assert(all.take(i as int + 1).last() == all[i as int]);
            }
            i = i + 1;
        }
        proof {
            assert(all.take(all.len() as int) =~= all);
        }
        words_to_le_bytes(&words)
    }
}

/// One render pass: its treatment of the color and depth attachments, the
/// generation of the render targets it reads and writes, and at most one
/// draw.
pub struct PassCommands {
    pub color_load: LoadAction,
    pub depth_load: LoadAction,
    /// Generation of the multisampled color texture the pass writes.
    pub msaa_generation: u64,
    /// Generation of the depth texture the pass tests against.
    pub depth_generation: u64,
    pub draw: Option<DrawCall>,
}

/// One recorded frame: the uniforms in force, the passes in submission
/// order, and the screen extent the frame was recorded for. The camera
/// uniform is bound at `CAMERA_BIND_GROUP`, the light uniform at
/// `LIGHT_BIND_GROUP`.
pub struct FrameCommands {
    pub width: u32,
    pub height: u32,
    /// Identity of the camera bind group the frame reads; it changes
    /// whenever the camera uniform is rewritten.
    pub camera_generation: u64,
    pub camera_uniform: Mat4Bits,
    pub light_uniform: Vec3Bits,
    pub passes: Vec<PassCommands>,
}

/// Every pass of the frame reads and writes render targets of exactly the
/// given generation.
pub open spec fn frame_reads_only_generation(frame: FrameCommands, generation: u64) -> bool {
    forall|i: int| 0 <= i < frame.passes@.len() ==> {
        let p = #[trigger] frame.passes@[i];
        p.msaa_generation == generation && p.depth_generation == generation
    }
}

/// The draw covers the mesh standing at `position`: its counters match the
/// mesh's geometry and instance list, and its matrices are the mesh's
/// instance matrices in instance order.
pub open spec fn draw_covers_mesh(d: DrawCall, m: Mesh, position: int) -> bool {
    &&& d.mesh_index == position
    &&& d.index_count == m.indices_spec().len()
    &&& d.instance_count == m.instances_spec().len()
    &&& d.instance_matrices@.len() == m.instances_spec().len()
    &&& forall|j: int| 0 <= j < d.instance_matrices@.len()
        ==> (#[trigger] d.instance_matrices@[j])@ == matrices_of(m.instances_spec())[j]
}

/// The renderer: the camera and light state, each CPU value paired with
/// the contents last written to its GPU uniform buffer, and the identity
/// of the render targets sized to the current screen.
#[derive(Debug)]
pub struct Renderer {
    width: u32,
    height: u32,
    /// Bumped whenever the depth and multisampled textures are replaced;
    /// they are always replaced together.
    target_generation: u64,
    /// Bumped whenever the camera bind group must be rebuilt.
    camera_generation: u64,
    view: Mat4Bits,
    projection: Mat4Bits,
    camera_cpu: Mat4Bits,
    camera_gpu: Mat4Bits,
    light_elapsed_ns: u64,
    light_gpu: Vec3Bits,
}

impl Renderer {
    /// The current screen width.
    pub closed spec fn width_spec(self) -> u32 {
        self.width
    }

    /// The current screen height.
    pub closed spec fn height_spec(self) -> u32 {
        self.height
    }

    /// The generation of the current depth and multisampled textures.
    pub closed spec fn target_generation_spec(self) -> u64 {
        self.target_generation
    }

    /// The identity of the current camera bind group.
    pub closed spec fn camera_generation_spec(self) -> u64 {
        self.camera_generation
    }

    /// The view matrix.
    pub closed spec fn view_spec(self) -> Seq<u32> {
        self.view@
    }

    /// The projection matrix.
    pub closed spec fn projection_spec(self) -> Seq<u32> {
        self.projection@
    }

    /// The camera matrix held on the CPU: projection times view.
    pub closed spec fn camera_cpu_spec(self) -> Seq<u32> {
        self.camera_cpu@
    }

    /// The contents last written to the camera uniform buffer.
    pub closed spec fn camera_gpu_spec(self) -> Seq<u32> {
        self.camera_gpu@
    }

    /// The light's position on its orbit, as nanoseconds into the period.
    pub closed spec fn light_elapsed_spec(self) -> u64 {
        self.light_elapsed_ns
    }

    /// The contents last written to the light uniform buffer.
    pub closed spec fn light_gpu_spec(self) -> Seq<u32> {
        self.light_gpu@
    }

    /// The renderer's invariant: the screen extent is not degenerate, the
    /// camera matrix is the product of the stored projection and the view,
    /// each uniform buffer holds exactly the last CPU value (the
    /// write-then-confirm discipline), and the light sits within its
    /// period, its uniform keeping the orbit's elevation. The stored
    /// projection is the one value the projection call handed back for the
    /// current extent; since that call's precision is platform-defined, no
    /// clause equates it with a recomputation.
    pub open spec fn wf(self) -> bool {
        &&& 0 < self.width_spec()
        &&& 0 < self.height_spec()
        &&& self.view_spec() == look_at_matrix(camera_eye(), camera_target(), camera_up())
        &&& self.camera_cpu_spec() == mat4_product(self.projection_spec(), self.view_spec())
        &&& self.camera_gpu_spec() == self.camera_cpu_spec()
        &&& self.light_elapsed_spec() < LIGHT_PERIOD_NS
        &&& self.light_gpu_spec()[1] == LIGHT_ELEVATION_BITS
    }

    /// Builds a renderer for the given screen extent: the camera uniform
    /// holds projection times view for that extent, and the first
    /// generation of render targets is allocated. The light starts half a
    /// turn into its orbit — at the negative end of the first axis, beside
    /// the camera's left shoulder — and orbits from there. A zero extent
    /// is rejected as a configuration error, and no partially initialized
    /// renderer is reachable.
    pub fn new(width: u32, height: u32) -> (r: Result<Renderer, RenderError>)
        ensures
            r is Ok <==> (width > 0 && height > 0),
            !(width > 0 && height > 0) ==> r == Result::<Renderer, RenderError>::Err(RenderError::ZeroScreenExtent),
            r matches Ok(rd) ==> {
                &&& rd.wf()
                &&& rd.width_spec() == width
                &&& rd.height_spec() == height
                &&& rd.target_generation_spec() == 0
                &&& rd.camera_generation_spec() == 0
                &&& rd.light_elapsed_spec() == LIGHT_PERIOD_NS / 2
            },
    {
        if width == 0 || height == 0 {
            return Err(RenderError::ZeroScreenExtent);
        }
        let view = look_at(
            &Vec3Bits { x: 0, y: ONE_BITS, z: TWO_BITS },
            &Vec3Bits { x: 0, y: 0, z: 0 },
            &Vec3Bits { x: 0, y: ONE_BITS, z: 0 },
        );
        proof {
            assert(Vec3Bits { x: 0, y: ONE_BITS, z: TWO_BITS }@ =~= camera_eye());
            assert(Vec3Bits { x: 0u32, y: 0u32, z: 0u32 }@ =~= camera_target());
            assert(Vec3Bits { x: 0, y: ONE_BITS, z: 0 }@ =~= camera_up());
        }
        let projection = perspective(FOV_BITS, width, height, NEAR_BITS, FAR_BITS);
        let camera = mat4_mul(&projection, &view);
        let light_elapsed_ns = LIGHT_PERIOD_NS / 2;
        let light_gpu = light_point_for(light_elapsed_ns);
        Ok(Renderer {
            width,
            height,
            target_generation: 0,
            camera_generation: 0,
            view,
            projection,
            camera_cpu: camera,
            camera_gpu: camera,
            light_elapsed_ns,
            light_gpu,
        })
    }

    /// Recomputes the projection for the new extent, rewrites the camera
    /// uniform buffer, rebuilds the camera bind group, and replaces the
    /// depth and multisampled textures together, as one new generation.
    /// A zero extent is rejected and nothing changes.
    pub fn set_screen_size(&mut self, width: u32, height: u32) -> (r: Result<(), RenderError>)
        requires
            old(self).wf(),
            old(self).target_generation_spec() < u64::MAX,
            old(self).camera_generation_spec() < u64::MAX,
        ensures
            r is Ok <==> (width > 0 && height > 0),
            r is Err ==> *final(self) == *old(self) && r == Result::<(), RenderError>::Err(RenderError::ZeroScreenExtent),
            r is Ok ==> {
                &&& final(self).wf()
                &&& final(self).width_spec() == width
                &&& final(self).height_spec() == height
                &&& final(self).target_generation_spec() == old(self).target_generation_spec() + 1
                &&& final(self).camera_generation_spec() == old(self).camera_generation_spec() + 1
                &&& final(self).view_spec() == old(self).view_spec()
                &&& final(self).light_elapsed_spec() == old(self).light_elapsed_spec()
                &&& final(self).light_gpu_spec() == old(self).light_gpu_spec()
            },
    {
        if width == 0 || height == 0 {
            return Err(RenderError::ZeroScreenExtent);
        }
        self.projection = perspective(FOV_BITS, width, height, NEAR_BITS, FAR_BITS);
        let camera = mat4_mul(&self.projection, &self.view);
        self.camera_cpu = camera;
        self.camera_gpu = camera;
        self.camera_generation = self.camera_generation + 1;
        self.target_generation = self.target_generation + 1;
        self.width = width;
        self.height = height;
        Ok(())
    }

    /// Advances the light's orbital time by `delta_ns` nanoseconds,
    /// wrapping at the period, and rewrites the light uniform buffer with
    /// the point freshly computed for the new orbital time. The orbital
    /// time — and with it the orbital angle — depends only on the total
    /// time advanced, never on how that total was subdivided into calls;
    /// of the uniform itself the contract pins the elevation, the in-plane
    /// components coming from the platform's sine and cosine.
    pub fn update_light_position(&mut self, delta_ns: u64)
        requires
            old(self).wf(),
        ensures
            final(self).wf(),
            final(self).light_elapsed_spec()
                == advanced_light_time(old(self).light_elapsed_spec() as int, delta_ns as int),
            final(self).width_spec() == old(self).width_spec(),
            final(self).height_spec() == old(self).height_spec(),
            final(self).target_generation_spec() == old(self).target_generation_spec(),
            final(self).camera_generation_spec() == old(self).camera_generation_spec(),
            final(self).view_spec() == old(self).view_spec(),
            final(self).projection_spec() == old(self).projection_spec(),
            final(self).camera_gpu_spec() == old(self).camera_gpu_spec(),
    {
        let wrapped_delta = delta_ns % LIGHT_PERIOD_NS;
        let advanced = self.light_elapsed_ns + wrapped_delta;
        let elapsed = advanced % LIGHT_PERIOD_NS;
        proof {
            lemma_small_mod(self.light_elapsed_ns as nat, LIGHT_PERIOD_NS as nat);
            lemma_add_mod_noop(self.light_elapsed_ns as int, delta_ns as int, LIGHT_PERIOD_NS as int);
            lemma_mod_bound(self.light_elapsed_ns as int + delta_ns as int, LIGHT_PERIOD_NS as int);
        }
        self.light_gpu = light_point_for(elapsed);
        self.light_elapsed_ns = elapsed;
    }

    /// Records one frame over the given meshes, in their given order. The
    /// first mesh's pass clears color and depth; each later mesh's pass
    /// accumulates over them. With no meshes at all the frame is a single
    /// clearing pass with no draw, a valid empty frame. Every pass reads
    /// only the current generation of render targets, and each mesh gets
    /// exactly one indexed, instanced draw covering all its instances.
    pub fn render(&self, meshes: &Vec<Mesh>) -> (frame: FrameCommands)
        requires
            self.wf(),
            forall|i: int| 0 <= i < meshes@.len() ==> (#[trigger] meshes@[i]).wf(),
        ensures
            frame.width == self.width_spec(),
            frame.height == self.height_spec(),
            frame.camera_generation == self.camera_generation_spec(),
            frame.camera_uniform@ == self.camera_gpu_spec(),
            frame.light_uniform@ == self.light_gpu_spec(),
            frame_reads_only_generation(frame, self.target_generation_spec()),
            meshes@.len() == 0 ==> {
                &&& frame.passes@.len() == 1
                &&& frame.passes@[0].color_load == LoadAction::Clear
                &&& frame.passes@[0].depth_load == LoadAction::Clear
                &&& frame.passes@[0].draw is None
            },
            meshes@.len() > 0 ==> frame.passes@.len() == meshes@.len(),
            forall|i: int| 0 <= i < meshes@.len() ==> {
                let p = #[trigger] frame.passes@[i];
                &&& p.color_load == (if i == 0 { LoadAction::Clear } else { LoadAction::Load })
                &&& p.depth_load == (if i == 0 { LoadAction::Clear } else { LoadAction::Load })
                &&& p.draw matches Some(d) && draw_covers_mesh(d, meshes@[i], i)
            },
    {
        let mut passes: Vec<PassCommands> = Vec::new();
        if meshes.len() == 0 {
            passes.push(PassCommands {
                color_load: LoadAction::Clear,
                depth_load: LoadAction::Clear,
                msaa_generation: self.target_generation,
                depth_generation: self.target_generation,
                draw: None,
            });
        } else {
            let mut k: usize = 0;
            while k < meshes.len()
                invariant
                    k <= meshes@.len(),
                    passes@.len() == k,
                    forall|i: int| 0 <= i < meshes@.len() ==> (#[trigger] meshes@[i]).wf(),
                    forall|i: int| 0 <= i < k ==> {
                        let p = #[trigger] passes@[i];
                        &&& p.msaa_generation == self.target_generation_spec()
                        &&& p.depth_generation == self.target_generation_spec()
                        &&& p.color_load == (if i == 0 { LoadAction::Clear } else { LoadAction::Load })
                        &&& p.depth_load == (if i == 0 { LoadAction::Clear } else { LoadAction::Load })
                        &&& p.draw matches Some(d) && draw_covers_mesh(d, meshes@[i], i)
                    },
                decreases meshes@.len() - k,
            {
                let mesh = &meshes[k];
                let load = if k == 0 { LoadAction::Clear } else { LoadAction::Load };
                let draw = DrawCall {
                    mesh_index: k,
                    index_count: mesh.index_count(),
                    instance_count: mesh.instance_count() as u32,
                    instance_matrices: mesh.instance_matrices(),
                };
                passes.push(PassCommands {
                    color_load: load,
                    depth_load: load,
                    msaa_generation: self.target_generation,
                    depth_generation: self.target_generation,
                    draw: Some(draw),
                });
                k = k + 1;
            }
        }
        FrameCommands {
            width: self.width,
            height: self.height,
            camera_generation: self.camera_generation,
            camera_uniform: self.camera_gpu,
            light_uniform: self.light_gpu,
            passes,
        }
    }

    /// The current screen width.
    pub fn width(&self) -> (r: u32)
        ensures
            r == self.width_spec(),
    {
        self.width
    }

    /// The current screen height.
    pub fn height(&self) -> (r: u32)
        ensures
            r == self.height_spec(),
    {
        self.height
    }

    /// The generation of the current depth and multisampled textures;
    /// whenever it changes, both textures have been replaced together.
    pub fn target_generation(&self) -> (r: u64)
        ensures
            r == self.target_generation_spec(),
    {
        self.target_generation
    }

    /// The identity of the current camera bind group; whenever it changes,
    /// the bind group must be rebuilt before the next frame.
    pub fn camera_generation(&self) -> (r: u64)
        ensures
            r == self.camera_generation_spec(),
    {
        self.camera_generation
    }

    /// The current projection matrix.
    pub fn projection_matrix(&self) -> (r: Mat4Bits)
        ensures
            r@ == self.projection_spec(),
    {
        self.projection
    }

    /// The contents of the camera uniform buffer: projection times view.
    pub fn camera_uniform(&self) -> (r: Mat4Bits)
        ensures
            r@ == self.camera_gpu_spec(),
    {
        self.camera_gpu
    }

    /// The contents of the light uniform buffer.
    pub fn light_uniform(&self) -> (r: Vec3Bits)
        ensures
            r@ == self.light_gpu_spec(),
    {
        self.light_gpu
    }

    /// Nanoseconds into the light's orbital period.
    pub fn light_elapsed_ns(&self) -> (r: u64)
        ensures
            r == self.light_elapsed_spec(),
    {
        self.light_elapsed_ns
    }

    /// The light's current orbital angle in thousandths of a degree,
    /// computed exactly from the orbital time.
    pub fn light_angle(&self) -> (r: u32)
        requires
            self.wf(),
        ensures
            r == light_angle_millideg(self.light_elapsed_spec() as int),
            r < 360_000,
    {
        angle_millideg_for(self.light_elapsed_ns)
    }
}

/// Computes the light's orbital angle for a time within the period, in
/// thousandths of a degree.
fn angle_millideg_for(elapsed_ns: u64) -> (r: u32)
    requires
        elapsed_ns < LIGHT_PERIOD_NS,
    ensures
        r == light_angle_millideg(elapsed_ns as int),
        r < 360_000,
{
    proof {
        lemma_mul_inequality(elapsed_ns as int, (LIGHT_PERIOD_NS - 1) as int, MILLIDEG_PER_TURN as int);
        lemma_div_is_ordered(
            elapsed_ns as int * MILLIDEG_PER_TURN as int,
            (LIGHT_PERIOD_NS - 1) as int * MILLIDEG_PER_TURN as int,
            LIGHT_PERIOD_NS as int,
        );
    }
    ((elapsed_ns * MILLIDEG_PER_TURN) / LIGHT_PERIOD_NS) as u32
}

/// Computes the light's uniform contents for an orbital time within the
/// period. The elevation is pinned; the in-plane components are whatever
/// the platform's sine and cosine hand back for the exact orbital angle.
fn light_point_for(elapsed_ns: u64) -> (r: Vec3Bits)
    requires
        elapsed_ns < LIGHT_PERIOD_NS,
    ensures
        r.y == LIGHT_ELEVATION_BITS,
{
    let angle = angle_millideg_for(elapsed_ns);
    orbit_point_at(angle, LIGHT_RADIUS_BITS, LIGHT_ELEVATION_BITS)
}

/// A frame recorded after any number of resizes reads no stale render
/// target: if every pass reads only the current generation, then no pass
/// reads a target of any earlier generation, for the depth texture and
/// the multisampled texture alike.
pub proof fn lemma_frame_reads_no_stale_target(frame: FrameCommands, current: u64, stale: u64)
    requires
        frame_reads_only_generation(frame, current),
        stale < current,
    ensures
        forall|i: int| 0 <= i < frame.passes@.len() ==> {
            let p = #[trigger] frame.passes@[i];
            p.msaa_generation != stale && p.depth_generation != stale
        },
{
}

/// Advancing the light's orbital time by two deltas in turn reaches the
/// same orbital time — and so the same orbital angle — as advancing once
/// by their sum: the light's animation is invariant under subdividing a
/// time span into steps.
pub proof fn lemma_light_advance_timestep_invariant(elapsed: int, first: int, second: int)
    requires
        0 <= elapsed,
        0 <= first,
        0 <= second,
    ensures
        advanced_light_time(advanced_light_time(elapsed, first), second)
            == advanced_light_time(elapsed, first + second),
        light_angle_millideg(advanced_light_time(advanced_light_time(elapsed, first), second))
            == light_angle_millideg(advanced_light_time(elapsed, first + second)),
{
    let p = LIGHT_PERIOD_NS as int;
    lemma_add_mod_noop(elapsed + first, second, p);
    lemma_mod_bound(elapsed + first, p);
    lemma_small_mod(((elapsed + first) % p) as nat, p as nat);
    lemma_small_mod((second % p) as nat, p as nat);
    lemma_mod_bound(second, p);
    lemma_add_mod_noop((elapsed + first) % p, second, p);
}

} // verus!
