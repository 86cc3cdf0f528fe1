use vstd::prelude::*;
use crate::layout::{Vertex, interleave, interleave_error, vertices_of, le_bytes, vertex_words_of, pack_words, vertex_words};
use crate::LoadError;

verus! {

/// A decoded OBJ submesh, ready to upload.
pub struct MeshData {
    pub name: String,
    pub vertices: Vec<Vertex>,
    pub indices: Vec<u32>,
    /// Index into the model's materials.
    pub material: usize,
}

/// The material a submesh uses: its own id, or the default material 0.
pub open spec fn material_index_of(id: Option<usize>) -> usize {
    match id {
        Some(m) => m,
        None => 0,
    }
}

/// Resolves a submesh's optional material id.
pub fn obj_material_index(id: Option<usize>) -> (r: usize)
    ensures
        r == material_index_of(id),
{
    match id {
        Some(m) => m,
        None => 0,
    }
}

/// What, if anything, stops a parsed submesh from decoding: a missing or
/// mismatched attribute stream, or an empty index list.
pub open spec fn obj_mesh_error(pos: Seq<u32>, tex: Seq<u32>, nrm: Seq<u32>, idx: Seq<u32>) -> Option<LoadError> {
    if interleave_error(pos, tex, nrm) is Some {
        interleave_error(pos, tex, nrm)
    } else if idx.len() == 0 {
        Some(LoadError::MalformedAsset)
    } else {
        None
    }
}

/// `m` is the mesh decoded from a parsed submesh: its vertices interleave the
/// streams, its indices are the parsed ones unchanged, and its material is the
/// submesh's own or the default.
pub open spec fn is_decoded_obj_mesh(
    m: MeshData,
    name: Seq<char>,
    pos: Seq<u32>,
    tex: Seq<u32>,
    nrm: Seq<u32>,
    idx: Seq<u32>,
    id: Option<usize>,
) -> bool {
    &&& m.name@ == name
    &&& vertices_of(m.vertices@, pos, tex, nrm)
    &&& m.indices@ == idx
    &&& m.material == material_index_of(id)
}

/// Builds a mesh from one parsed, triangulated, single-index OBJ submesh.
/// Attribute components are float bit patterns.
pub fn decode_obj_mesh(
    name: String,
    positions: Vec<u32>,
    tex_coords: Vec<u32>,
    normals: Vec<u32>,
    indices: Vec<u32>,
    material_id: Option<usize>,
) -> (r: Result<MeshData, LoadError>)
    ensures
        match r {
            Ok(m) => obj_mesh_error(positions@, tex_coords@, normals@, indices@) is None
                && is_decoded_obj_mesh(m, name@, positions@, tex_coords@, normals@, indices@, material_id),
            Err(e) => obj_mesh_error(positions@, tex_coords@, normals@, indices@) == Some(e),
        },
{
    let vertices = match interleave(&positions, &tex_coords, &normals) {
        Ok(vs) => vs,
        Err(e) => return Err(e),
    };
    if indices.len() == 0 {
        return Err(LoadError::MalformedAsset);
    }
    Ok(MeshData { name, vertices, indices, material: obj_material_index(material_id) })
}

/// A mesh decoded from `N` triangles keeps `3N` indices and has one vertex per
/// distinct single-index vertex of the parsed streams.
pub proof fn lemma_obj_counts(
    m: MeshData,
    name: Seq<char>,
    pos: Seq<u32>,
    tex: Seq<u32>,
    nrm: Seq<u32>,
    idx: Seq<u32>,
    id: Option<usize>,
    triangles: nat,
)
    requires
        idx.len() == 3 * triangles,
        is_decoded_obj_mesh(m, name, pos, tex, nrm, idx, id),
    ensures
        m.indices@.len() == 3 * triangles,
        m.vertices@.len() == pos.len() / 3,
{
}

/// A submesh without a material id uses material 0.
pub proof fn lemma_default_material(
    m: MeshData,
    name: Seq<char>,
    pos: Seq<u32>,
    tex: Seq<u32>,
    nrm: Seq<u32>,
    idx: Seq<u32>,
)
    requires
        is_decoded_obj_mesh(m, name, pos, tex, nrm, idx, None),
    ensures
        m.material == 0,
{
}

impl MeshData {
    /// The vertex buffer contents: 8 little-endian words per vertex.
    pub fn vertex_bytes(&self) -> (r: Vec<u8>)
        requires
            self.vertices@.len() * 32 <= usize::MAX,
        ensures
            r@ == le_bytes(vertex_words_of(self.vertices@)),
    {
        let w = vertex_words(&self.vertices);
        pack_words(&w)
    }

    /// The index buffer contents: each index as 4 little-endian bytes.
    pub fn index_bytes(&self) -> (r: Vec<u8>)
        requires
            self.indices@.len() * 4 <= usize::MAX,
        ensures
            r@ == le_bytes(self.indices@),
    {
        pack_words(&self.indices)
    }

    /// Number of indices to draw.
    pub fn num_elements(&self) -> (r: usize)
        ensures
            r == self.indices@.len(),
    {
        self.indices.len()
    }
}

} // verus!
