//! Turns the contents of OBJ and glTF assets into GPU-ready vertex and index
//! data: vertex interleaving, glTF accessor resolution, little-endian packing
//! and the location of assets.

mod error;
mod layout;
mod obj;
mod gltf;
mod source;

pub use error::LoadError;
pub use layout::{Vertex, interleave, zip_vertices, pack_words, vertex_words};
pub use obj::{MeshData, decode_obj_mesh, obj_material_index};
pub use gltf::{
    BufferSource, ComponentType, ViewDesc, AccessorDesc, GltfDocument, PrimitiveDesc, GltfMeshDesc,
    GltfPrimitiveData, GltfMeshData, slice_view, decode_primitive, decode_mesh,
};
pub use source::{AssetSource, remote_base, format_url, resolved_or_error, check_status};
