use vstd::prelude::*;
use crate::RenderError;
use crate::math::{Mat4Bits, Vec2Bits, Vec3Bits, le_bytes_of_shorts, le_bytes_of_words, shorts_to_le_bytes, similarity_matrix, words_to_le_bytes};
use crate::transform::Transform;

verus! {

/// One vertex of a mesh: a position, a normal and a texture coordinate,
/// each component a raw 32-bit pattern. The layout is a contract between
/// the mesh and the render pipeline's vertex-attribute description.
#[derive(Clone, Copy, Debug, PartialEq, Eq, Structural)]
pub struct Vertex {
    pub position: Vec3Bits,
    pub normal: Vec3Bits,
    pub uv: Vec2Bits,
}

/// Bytes per vertex in the buffer layout: eight words of four bytes each.
pub const VERTEX_STRIDE_BYTES: u32 = 32;

/// The words of one vertex in attribute order — position, then normal,
/// then texture coordinate. The stride and these offsets are the contract
/// between the mesh's buffers and the pipeline's vertex attributes.
pub open spec fn vertex_words(v: Vertex) -> Seq<u32> {
    seq![
        v.position.x, v.position.y, v.position.z,
        v.normal.x, v.normal.y, v.normal.z,
        v.uv.x, v.uv.y,
    ]
}

/// All the words of a sequence of vertices, eight per vertex, in vertex
/// order.
pub open spec fn words_of_vertices(vertices: Seq<Vertex>) -> Seq<u32>
    decreases vertices.len(),
{
    if vertices.len() == 0 {
        Seq::empty()
    } else {
        words_of_vertices(vertices.drop_last()) + vertex_words(vertices.last())
    }
}

/// The homogeneous matrices of a sequence of instance transforms, one per
/// instance, in the same order as the instances.
pub open spec fn matrices_of(instances: Seq<Transform>) -> Seq<Seq<u32>> {
    Seq::new(
        instances.len(),
        |i: int| similarity_matrix(instances[i].translation@, instances[i].rotation@, instances[i].scale),
    )
}

/// One piece of static geometry together with the ordered list of its
/// instance transforms. The vertex and index data never change after
/// creation; only the instance list is mutated, through `add_instance`
/// and `update_transform`.
#[derive(Debug)]
pub struct Mesh {
    vertices: Vec<Vertex>,
    indices: Vec<u16>,
    instances: Vec<Transform>,
}

impl Mesh {
    /// A mesh is well formed when its geometry is not degenerate (no empty
    /// vertex or index list) and its index and instance counts fit the
    /// 32-bit counters a draw call carries.
    pub open spec fn wf(self) -> bool {
        &&& self.vertices_spec().len() > 0
        &&& self.indices_spec().len() > 0
        &&& self.indices_spec().len() <= u32::MAX
        &&& self.instances_spec().len() <= u32::MAX
    }

    /// The vertex data of this mesh.
    pub closed spec fn vertices_spec(self) -> Seq<Vertex> {
        self.vertices@
    }

    /// The index data of this mesh.
    pub closed spec fn indices_spec(self) -> Seq<u16> {
        self.indices@
    }

    /// The ordered instance list of this mesh.
    pub closed spec fn instances_spec(self) -> Seq<Transform> {
        self.instances@
    }

    /// Creates a mesh from parsed geometry with no instances. Empty vertex
    /// or index arrays are rejected as configuration errors: the engine
    /// never draws zero geometry silently.
    pub fn create(vertices: Vec<Vertex>, indices: Vec<u16>) -> (r: Result<Mesh, RenderError>)
        requires
            indices@.len() <= u32::MAX,
        ensures
            r is Ok <==> (vertices@.len() > 0 && indices@.len() > 0),
            vertices@.len() == 0 ==> r == Result::<Mesh, RenderError>::Err(RenderError::EmptyVertexList),
            vertices@.len() > 0 && indices@.len() == 0 ==> r == Result::<Mesh, RenderError>::Err(RenderError::EmptyIndexList),
            r matches Ok(m) ==> {
                &&& m.vertices_spec() == vertices@
                &&& m.indices_spec() == indices@
                &&& m.instances_spec() == Seq::<Transform>::empty()
                &&& m.wf()
            },
    {
        if vertices.len() == 0 {
            Err(RenderError::EmptyVertexList)
        } else if indices.len() == 0 {
            Err(RenderError::EmptyIndexList)
        } else {
            let m = Mesh { vertices, indices, instances: Vec::new() };
            assert(m.instances@ =~= Seq::<Transform>::empty());
            Ok(m)
        }
    }

    /// Appends one instance at the end of the instance list; the insertion
    /// order is the draw order and the instance-buffer layout order.
    pub fn add_instance(&mut self, transform: Transform)
        requires
            old(self).instances_spec().len() < u32::MAX,
        ensures
            final(self).instances_spec() == old(self).instances_spec().push(transform),
            final(self).vertices_spec() == old(self).vertices_spec(),
            final(self).indices_spec() == old(self).indices_spec(),
    {
        self.instances.push(transform);
    }

    /// Applies `mutator` to the instance at `index`. An index outside
    /// `[0, instance_count)` is reported as an error and nothing is
    /// changed; it is never a silent no-op on some other instance.
    pub fn update_transform<F: FnOnce(Transform) -> Transform>(&mut self, index: usize, mutator: F) -> (r: Result<(), RenderError>)
        requires
            index < old(self).instances_spec().len() ==> call_requires(mutator, (old(self).instances_spec()[index as int],)),
        ensures
            r is Ok <==> index < old(self).instances_spec().len(),
            r is Err ==> *final(self) == *old(self) && r == Result::<(), RenderError>::Err(RenderError::InstanceIndexOutOfRange),
            r is Ok ==> exists|t: Transform|
                #[trigger] call_ensures(mutator, (old(self).instances_spec()[index as int],), t)
                && final(self).instances_spec() == old(self).instances_spec().update(index as int, t),
            final(self).vertices_spec() == old(self).vertices_spec(),
            final(self).indices_spec() == old(self).indices_spec(),
    {
        if index < self.instances.len() {
            let current = self.instances[index];
            self.instances[index] = mutator(current);
            Ok(())
        } else {
            Err(RenderError::InstanceIndexOutOfRange)
        }
    }

    /// The homogeneous matrix of every instance, produced lazily from the
    /// instance list in its current order. The sequence's layout is what a
    /// frame uploads to the per-mesh instance buffer before each draw.
    pub fn instance_matrices(&self) -> (r: Vec<Mat4Bits>)
        ensures
            r@.len() == self.instances_spec().len(),
            forall|i: int| 0 <= i < r@.len() ==> (#[trigger] r@[i])@ == matrices_of(self.instances_spec())[i],
    {
        let mut out: Vec<Mat4Bits> = Vec::new();
        let mut k: usize = 0;
        while k < self.instances.len()
            invariant
                k <= self.instances@.len(),
                out@.len() == k,
                forall|i: int| 0 <= i < k ==> (#[trigger] out@[i])@ == matrices_of(self.instances@)[i],
            decreases self.instances@.len() - k,
        {
            out.push(self.instances[k].to_matrix());
            k = k + 1;
        }
        out
    }

    /// The vertex data exactly as the vertex buffer receives it: eight
    /// words per vertex in attribute order, each word in little-endian
    /// byte order.
    pub fn vertex_buffer_bytes(&self) -> (r: Vec<u8>)
        ensures
            r@ == le_bytes_of_words(words_of_vertices(self.vertices_spec())),
    {
        let ghost all = self.vertices@;
        let mut words: Vec<u32> = Vec::new();
        let mut i: usize = 0;
        proof {
            assert(all.take(0) =~= Seq::<Vertex>::empty());
        }
        while i < self.vertices.len()
            invariant
                i <= all.len(),
                all == self.vertices@,
                words@ == words_of_vertices(all.take(i as int)),
            decreases all.len() - i,
        {
            let ghost prefix = words@;
            let v = self.vertices[i];
            words.push(v.position.x);
            words.push(v.position.y);
            words.push(v.position.z);
            words.push(v.normal.x);
            words.push(v.normal.y);
            words.push(v.normal.z);
            words.push(v.uv.x);
            words.push(v.uv.y);
            proof {
                assert(words@ =~= prefix + vertex_words(all[i as int]));
                assert(all.take(i as int + 1).drop_last() =~= all.take(i as int));
                assert(all.take(i as int + 1).last() == all[i as int]);
            }
            i = i + 1;
        }
        proof {
            assert(all.take(all.len() as int) =~= all);
        }
        words_to_le_bytes(&words)
    }

    /// The vertex data, as uploaded verbatim to the vertex buffer.
    pub fn vertex_buffer(&self) -> (r: &Vec<Vertex>)
        ensures
            r@ == self.vertices_spec(),
    {
        &self.vertices
    }

    /// The index data exactly as the index buffer receives it: each 16-bit
    /// index in little-endian byte order.
    pub fn index_buffer_bytes(&self) -> (r: Vec<u8>)
        ensures
            r@ == le_bytes_of_shorts(self.indices_spec()),
    {
        shorts_to_le_bytes(&self.indices)
    }

    /// The index data, as uploaded verbatim to the index buffer.
    pub fn index_buffer(&self) -> (r: &Vec<u16>)
        ensures
            r@ == self.indices_spec(),
    {
        &self.indices
    }

    /// How many indices one indexed draw of this mesh covers.
    pub fn index_count(&self) -> (r: u32)
        requires
            self.wf(),
        ensures
            r == self.indices_spec().len(),
    {
        self.indices.len() as u32
    }

    /// The ordered instance list.
    pub fn instances(&self) -> (r: &Vec<Transform>)
        ensures
            r@ == self.instances_spec(),
    {
        &self.instances
    }

    /// How many instances one draw of this mesh covers.
    pub fn instance_count(&self) -> (r: usize)
        ensures
            r == self.instances_spec().len(),
    {
        self.instances.len()
    }
}

/// Between two productions of the matrix sequence with no mutation of the
/// instance list in between, the sequences are identical, element for
/// element and in the same order.
pub proof fn lemma_instance_matrices_stable(instances: Seq<Transform>, first: Seq<Seq<u32>>, second: Seq<Seq<u32>>)
    requires
        first.len() == instances.len(),
        forall|i: int| 0 <= i < first.len() ==> first[i] == matrices_of(instances)[i],
        second.len() == instances.len(),
        forall|i: int| 0 <= i < second.len() ==> second[i] == matrices_of(instances)[i],
    ensures
        first == second,
{
    assert(first =~= second);
}

} // verus!
