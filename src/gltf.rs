use vstd::prelude::*;
use vstd::arithmetic::div_mod::lemma_fundamental_div_mod_converse;
use crate::LoadError;
use vstd::string::*;
use crate::layout::{Vertex, vertices_of, zip_vertices};
use crate::obj::material_index_of;

verus! {

/// The numeric type of an accessor's components.
#[derive(Debug, Clone, Copy, PartialEq, Eq, Structural)]
pub enum ComponentType {
    I8,
    U8,
    I16,
    U16,
    U32,
    F32,
}

/// Size in bytes of one component.
pub open spec fn component_size(c: ComponentType) -> nat {
    match c {
        ComponentType::I8 | ComponentType::U8 => 1,
        ComponentType::I16 | ComponentType::U16 => 2,
        ComponentType::U32 | ComponentType::F32 => 4,
    }
}

/// Whether this loader reads the component type: unsigned integers for
/// indices, 32-bit floats for vertex attributes.
pub open spec fn component_supported(c: ComponentType, for_indices: bool) -> bool {
    if for_indices {
        c == ComponentType::U8 || c == ComponentType::U16 || c == ComponentType::U32
    } else {
        c == ComponentType::F32
    }
}

/// Where a glTF buffer's bytes come from.
#[derive(Debug)]
pub enum BufferSource {
    /// The binary chunk packed with the container.
    Bin,
    /// A separate file, named relative to the asset.
    Uri(String),
}

/// A byte range of a buffer.
#[derive(Debug, Clone, Copy)]
pub struct ViewDesc {
    pub buffer: usize,
    pub offset: usize,
    pub length: usize,
    /// Distance in bytes between consecutive elements; packed when absent.
    pub stride: Option<usize>,
}

/// A typed, strided reading of a buffer view.
#[derive(Debug, Clone, Copy)]
pub struct AccessorDesc {
    pub view: Option<usize>,
    /// Offset in bytes of the first element inside the view.
    pub offset: usize,
    /// Number of elements.
    pub count: usize,
    pub component: ComponentType,
    /// Components per element: 1 for scalars, 2 and 3 for vectors.
    pub dims: usize,
}

/// The buffer, view and accessor tables of a glTF document.
pub struct GltfDocument {
    pub buffers: Vec<BufferSource>,
    pub views: Vec<ViewDesc>,
    pub accessors: Vec<AccessorDesc>,
}

/// The bytes fetched for buffer `b`; none where nothing was fetched.
pub open spec fn fetched_bytes(fetched: Seq<Vec<u8>>, b: int) -> Seq<u8> {
    if 0 <= b < fetched.len() { fetched[b]@ } else { Seq::empty() }
}

/// Component value at byte `p`, little-endian, widened to 32 bits. Floats
/// are kept as their bit pattern.
pub open spec fn read_component(b: Seq<u8>, p: int, c: ComponentType) -> u32 {
    match c {
        ComponentType::U8 | ComponentType::I8 => b[p] as u32,
        ComponentType::U16 | ComponentType::I16 => (b[p] as int + 256 * b[p + 1] as int) as u32,
        _ => (b[p] as int + 256 * b[p + 1] as int + 65536 * b[p + 2] as int
            + 16777216 * b[p + 3] as int) as u32,
    }
}

/// The flat components of `count` elements of `dims` components each,
/// the first at byte `off` of `b` and each next one `stride` bytes later.
pub open spec fn strided_components(
    b: Seq<u8>,
    off: int,
    stride: int,
    count: int,
    dims: int,
    c: ComponentType,
) -> Seq<u32> {
    Seq::new((count * dims) as nat, |k: int| read_component(b, off + (k / dims) * stride + (k % dims) * component_size(c), c))
}

/// The view's bytes: exactly `[offset, offset + length)` of the buffer.
pub open spec fn view_slice(bytes: Seq<u8>, offset: int, length: int) -> Result<Seq<u8>, LoadError> {
    if offset + length <= bytes.len() {
        Ok(bytes.subrange(offset, offset + length))
    } else {
        Err(LoadError::BufferSliceError)
    }
}

/// The flat components that accessor `a` yields, read as `dims`-component
/// elements of vertex data or, where `for_indices`, as scalar indices.
pub open spec fn accessor_read(
    doc: GltfDocument,
    fetched: Seq<Vec<u8>>,
    a: int,
    dims: int,
    for_indices: bool,
) -> Result<Seq<u32>, LoadError> {
    if !(0 <= a < doc.accessors@.len()) {
        Err(LoadError::MalformedAsset)
    } else {
        let acc = doc.accessors@[a];
        if !component_supported(acc.component, for_indices) {
            Err(LoadError::UnsupportedFormat)
        } else if acc.dims != dims {
            Err(LoadError::MalformedAsset)
        } else {
            match acc.view {
                None => Err(LoadError::UnsupportedFormat),
                Some(v) => if v >= doc.views@.len() {
                    Err(LoadError::MalformedAsset)
                } else {
                    let view = doc.views@[v as int];
                    if view.buffer >= doc.buffers@.len() {
                        Err(LoadError::MalformedAsset)
                    } else {
                        match doc.buffers@[view.buffer as int] {
                            BufferSource::Bin => Err(LoadError::UnsupportedFormat),
                            BufferSource::Uri(_) => match view_slice(fetched_bytes(fetched, view.buffer as int), view.offset as int, view.length as int) {
                                Err(e) => Err(e),
                                Ok(slice) => {
                                    let esize = component_size(acc.component) * dims;
                                    let stride = match view.stride { Some(s) => s as int, None => esize };
                                    if stride < esize || (acc.count > 0 && acc.offset + stride * (acc.count - 1) + esize > view.length) {
                                        Err(LoadError::MalformedAsset)
                                    } else {
                                        Ok(strided_components(slice, acc.offset as int, stride, acc.count as int, dims, acc.component))
                                    }
                                },
                            },
                        }
                    }
                },
            }
        }
    }
}

/// Cuts a view's bytes out of a fetched buffer.
pub fn slice_view(bytes: &Vec<u8>, offset: usize, length: usize) -> (r: Result<Vec<u8>, LoadError>)
    ensures
        match r {
            Ok(s) => view_slice(bytes@, offset as int, length as int) == Ok::<Seq<u8>, LoadError>(s@),
            Err(e) => view_slice(bytes@, offset as int, length as int) == Err::<Seq<u8>, LoadError>(e),
        },
{
    if offset > bytes.len() || length > bytes.len() - offset {
        return Err(LoadError::BufferSliceError);
    }
    let end = offset + length;
    let mut out: Vec<u8> = Vec::new();
    let mut i: usize = offset;
    while i < end
        invariant
            offset <= i <= end,
            end == offset + length,
            end <= bytes@.len(),
            out@ =~= bytes@.subrange(offset as int, i as int),
        decreases end - i,
    {
        out.push(bytes[i]);
        i += 1;
    }
    Ok(out)
}

fn component_at(b: &Vec<u8>, p: usize, c: ComponentType) -> (r: u32)
    requires
        p + component_size(c) <= b@.len(),
    ensures
        r == read_component(b@, p as int, c),
{
    let _n = b.len();
    match c {
        ComponentType::U8 | ComponentType::I8 => b[p] as u32,
        ComponentType::U16 | ComponentType::I16 => b[p] as u32 + 256 * (b[p + 1] as u32),
        _ => b[p] as u32 + 256 * (b[p + 1] as u32) + 65536 * (b[p + 2] as u32)
            + 16777216 * (b[p + 3] as u32),
    }
}

fn component_bytes(c: ComponentType) -> (r: usize)
    ensures
        r == component_size(c),
{
    match c {
        ComponentType::I8 | ComponentType::U8 => 1,
        ComponentType::I16 | ComponentType::U16 => 2,
        ComponentType::U32 | ComponentType::F32 => 4,
    }
}

proof fn lemma_element_in_view(i: int, count: int, stride: int, c: int, dims: int, csize: int, off: int, len: int)
    requires
        0 <= i < count,
        0 <= c < dims,
        0 < csize,
        dims * csize <= stride,
        0 <= off,
        off + stride * (count - 1) + dims * csize <= len,
    ensures
        0 <= i * stride <= stride * (count - 1),
        off + i * stride + c * csize + csize <= len,
        0 <= c * csize,
{
    assert(0 <= i * stride <= stride * (count - 1)) by (nonlinear_arith)
        requires 0 <= i <= count - 1, 0 <= stride;
    assert(c * csize + csize <= dims * csize && 0 <= c * csize) by (nonlinear_arith)
        requires 0 <= c < dims, 0 < csize;
}

/// Reads `count` strided elements of `dims` components out of a view's bytes.
fn read_strided(slice: &Vec<u8>, off: usize, stride: usize, count: usize, dims: usize, c: ComponentType) -> (r: Vec<u32>)
    requires
        dims > 0,
        dims * component_size(c) <= stride,
        count > 0 ==> off + stride * (count - 1) + dims * component_size(c) <= slice@.len(),
    ensures
        r@ == strided_components(slice@, off as int, stride as int, count as int, dims as int, c),
{
    let csize = component_bytes(c);
    let sl = slice.len();
    let ghost spec_r = strided_components(slice@, off as int, stride as int, count as int, dims as int, c);
    let mut out: Vec<u32> = Vec::new();
    let mut i: usize = 0;
    while i < count
        invariant
            i <= count,
            dims > 0,
            sl == slice@.len(),
            csize == component_size(c),
            dims * csize <= stride,
            count > 0 ==> off + stride * (count - 1) + dims * csize <= slice@.len(),
            out@.len() == i * dims,
            forall|k: int| 0 <= k < out@.len() ==> #[trigger] out@[k]
                == read_component(slice@, off + (k / dims as int) * stride + (k % dims as int) * csize, c),
        decreases count - i,
    {
        let mut j: usize = 0;
        while j < dims
            invariant
                i < count,
                j <= dims,
                dims > 0,
                sl == slice@.len(),
                csize == component_size(c),
                dims * csize <= stride,
                off + stride * (count - 1) + dims * csize <= slice@.len(),
                out@.len() == i * dims + j,
                forall|k: int| 0 <= k < out@.len() ==> #[trigger] out@[k]
                    == read_component(slice@, off + (k / dims as int) * stride + (k % dims as int) * csize, c),
            decreases dims - j,
        {
            proof {
                lemma_element_in_view(i as int, count as int, stride as int, j as int, dims as int, csize as int, off as int, slice@.len() as int);
            }
            let p = off + i * stride + j * csize;
            let v = component_at(slice, p, c);
            proof {
                let k = i * dims + j;
                lemma_fundamental_div_mod_converse(k, dims as int, i as int, j as int);
            }
            out.push(v);
            j += 1;
        }
        proof {
            assert((i + 1) * dims == i * dims + dims) by (nonlinear_arith);
        }
        i += 1;
    }
    assert(out@ =~= spec_r);
    out
}

/// Reads accessor `a` as `dims`-component elements, or as scalar indices.
fn read_accessor(doc: &GltfDocument, fetched: &Vec<Vec<u8>>, a: usize, dims: usize, for_indices: bool) -> (r: Result<Vec<u32>, LoadError>)
    requires
        1 <= dims <= 3,
    ensures
        match r {
            Ok(w) => accessor_read(*doc, fetched@, a as int, dims as int, for_indices) == Ok::<Seq<u32>, LoadError>(w@),
            Err(e) => accessor_read(*doc, fetched@, a as int, dims as int, for_indices) == Err::<Seq<u32>, LoadError>(e),
        },
{
    if a >= doc.accessors.len() {
        return Err(LoadError::MalformedAsset);
    }
    let acc = doc.accessors[a];
    let supported = if for_indices {
        acc.component == ComponentType::U8 || acc.component == ComponentType::U16 || acc.component == ComponentType::U32
    } else {
        acc.component == ComponentType::F32
    };
    if !supported {
        return Err(LoadError::UnsupportedFormat);
    }
    if acc.dims != dims {
        return Err(LoadError::MalformedAsset);
    }
    let v = match acc.view {
        None => return Err(LoadError::UnsupportedFormat),
        Some(v) => v,
    };
    if v >= doc.views.len() {
        return Err(LoadError::MalformedAsset);
    }
    let view = doc.views[v];
    if view.buffer >= doc.buffers.len() {
        return Err(LoadError::MalformedAsset);
    }
    match &doc.buffers[view.buffer] {
        BufferSource::Bin => return Err(LoadError::UnsupportedFormat),
        BufferSource::Uri(_) => {},
    }
    let empty: Vec<u8> = Vec::new();
    let bytes = if view.buffer < fetched.len() { &fetched[view.buffer] } else { &empty };
    let slice = match slice_view(bytes, view.offset, view.length) {
        Ok(s) => s,
        Err(e) => return Err(e),
    };
    let esize = component_bytes(acc.component) * dims;
    let stride = match view.stride {
        Some(s) => s,
        None => esize,
    };
    if stride < esize {
        return Err(LoadError::MalformedAsset);
    }
    if acc.count > 0 {
        let extent = match stride.checked_mul(acc.count - 1) {
            None => return Err(LoadError::MalformedAsset),
            Some(x) => match x.checked_add(acc.offset) {
                None => return Err(LoadError::MalformedAsset),
                Some(y) => y.checked_add(esize),
            },
        };
        match extent {
            None => return Err(LoadError::MalformedAsset),
            Some(x) => if x > view.length {
                return Err(LoadError::MalformedAsset);
            },
        }
    }
    Ok(read_strided(&slice, acc.offset, stride, acc.count, dims, acc.component))
}

/// Which accessors a primitive draws its data from.
#[derive(Debug, Clone, Copy)]
pub struct PrimitiveDesc {
    pub indices: Option<usize>,
    pub position: Option<usize>,
    pub normal: Option<usize>,
    pub tex_coord: Option<usize>,
    pub material: Option<usize>,
}

/// A glTF mesh: an optional name and its primitives.
pub struct GltfMeshDesc {
    pub name: Option<String>,
    pub primitives: Vec<PrimitiveDesc>,
}

/// An optional attribute: read where present, else `n` zeros.
pub open spec fn optional_read(
    doc: GltfDocument,
    fetched: Seq<Vec<u8>>,
    a: Option<usize>,
    dims: int,
    n: int,
) -> Result<Seq<u32>, LoadError> {
    match a {
        Some(x) => accessor_read(doc, fetched, x as int, dims, false),
        None => Ok(Seq::new(n as nat, |k: int| 0u32)),
    }
}

/// The index, position, texture-coordinate and normal streams of a
/// primitive, or the error that its decoding meets first.
pub open spec fn primitive_streams(
    doc: GltfDocument,
    fetched: Seq<Vec<u8>>,
    p: PrimitiveDesc,
) -> Result<(Seq<u32>, Seq<u32>, Seq<u32>, Seq<u32>), LoadError> {
    match p.indices {
        None => Err(LoadError::MissingIndices),
        Some(ia) => match p.position {
            None => Err(LoadError::MissingAttribute),
            Some(pa) => match accessor_read(doc, fetched, ia as int, 1, true) {
                Err(e) => Err(e),
                Ok(idx) => match accessor_read(doc, fetched, pa as int, 3, false) {
                    Err(e) => Err(e),
                    Ok(pos) => match optional_read(doc, fetched, p.normal, 3, pos.len() as int) {
                        Err(e) => Err(e),
                        Ok(nrm) => match optional_read(doc, fetched, p.tex_coord, 2, (pos.len() / 3 * 2) as int) {
                            Err(e) => Err(e),
                            Ok(tex) => if nrm.len() != pos.len() || tex.len() != pos.len() / 3 * 2 || idx.len() == 0 || pos.len() == 0 {
                                Err(LoadError::MalformedAsset)
                            } else {
                                Ok((idx, pos, tex, nrm))
                            },
                        },
                    },
                },
            },
        },
    }
}

/// A decoded glTF primitive, ready to upload.
pub struct GltfPrimitiveData {
    pub vertices: Vec<Vertex>,
    pub indices: Vec<u32>,
    /// Index into the document's materials.
    pub material: usize,
}

/// `d` is what primitive `p` decodes to.
pub open spec fn is_decoded_primitive(d: GltfPrimitiveData, doc: GltfDocument, fetched: Seq<Vec<u8>>, p: PrimitiveDesc) -> bool {
    let s = primitive_streams(doc, fetched, p);
    &&& s is Ok
    &&& d.indices@ == s->Ok_0.0
    &&& vertices_of(d.vertices@, s->Ok_0.1, s->Ok_0.2, s->Ok_0.3)
    &&& d.material == material_index_of(p.material)
}

fn read_optional(doc: &GltfDocument, fetched: &Vec<Vec<u8>>, a: Option<usize>, dims: usize, n: usize) -> (r: Result<Vec<u32>, LoadError>)
    requires
        1 <= dims <= 3,
    ensures
        match r {
            Ok(w) => optional_read(*doc, fetched@, a, dims as int, n as int) == Ok::<Seq<u32>, LoadError>(w@),
            Err(e) => optional_read(*doc, fetched@, a, dims as int, n as int) == Err::<Seq<u32>, LoadError>(e),
        },
{
    match a {
        Some(x) => read_accessor(doc, fetched, x, dims, false),
        None => {
            let mut out: Vec<u32> = Vec::new();
            let mut i: usize = 0;
            while i < n
                invariant
                    i <= n,
                    out@ =~= Seq::new(i as nat, |k: int| 0u32),
                decreases n - i,
            {
                out.push(0);
                i += 1;
            }
            Ok(out)
        },
    }
}

/// Decodes one primitive. `fetched[b]` holds the bytes fetched for buffer `b`.
pub fn decode_primitive(doc: &GltfDocument, fetched: &Vec<Vec<u8>>, p: &PrimitiveDesc) -> (r: Result<GltfPrimitiveData, LoadError>)
    ensures
        match r {
            Ok(d) => is_decoded_primitive(d, *doc, fetched@, *p),
            Err(e) => primitive_streams(*doc, fetched@, *p) == Err::<(Seq<u32>, Seq<u32>, Seq<u32>, Seq<u32>), LoadError>(e),
        },
{
    let ia = match p.indices {
        None => return Err(LoadError::MissingIndices),
        Some(x) => x,
    };
    let pa = match p.position {
        None => return Err(LoadError::MissingAttribute),
        Some(x) => x,
    };
    let indices = match read_accessor(doc, fetched, ia, 1, true) {
        Err(e) => return Err(e),
        Ok(w) => w,
    };
    let pos = match read_accessor(doc, fetched, pa, 3, false) {
        Err(e) => return Err(e),
        Ok(w) => w,
    };
    let nrm = match read_optional(doc, fetched, p.normal, 3, pos.len()) {
        Err(e) => return Err(e),
        Ok(w) => w,
    };
    let tex = match read_optional(doc, fetched, p.tex_coord, 2, pos.len() / 3 * 2) {
        Err(e) => return Err(e),
        Ok(w) => w,
    };
    if nrm.len() != pos.len() || tex.len() != pos.len() / 3 * 2 || indices.len() == 0 || pos.len() == 0 {
        return Err(LoadError::MalformedAsset);
    }
    let n = pos.len() / 3;
    let vertices = zip_vertices(&pos, &tex, &nrm, n);
    Ok(GltfPrimitiveData { vertices, indices, material: crate::obj::obj_material_index(p.material) })
}

/// A decoded glTF mesh.
pub struct GltfMeshData {
    pub name: String,
    pub primitives: Vec<GltfPrimitiveData>,
}

/// A mesh's name, or `unnamed` where it has none.
pub open spec fn mesh_name(mesh: GltfMeshDesc) -> Seq<char> {
    match mesh.name {
        Some(n) => n@,
        None => "unnamed"@,
    }
}

/// Decodes every primitive of a mesh, in order, failing on the first
/// primitive that does not decode.
pub fn decode_mesh(doc: &GltfDocument, fetched: &Vec<Vec<u8>>, mesh: &GltfMeshDesc) -> (r: Result<GltfMeshData, LoadError>)
    ensures
        match r {
            Ok(m) => {
                &&& m.name@ == mesh_name(*mesh)
                &&& m.primitives@.len() == mesh.primitives@.len()
                &&& forall|i: int| 0 <= i < mesh.primitives@.len()
                    ==> is_decoded_primitive(#[trigger] m.primitives@[i], *doc, fetched@, mesh.primitives@[i])
            },
            Err(e) => exists|i: int| 0 <= i < mesh.primitives@.len()
                && primitive_streams(*doc, fetched@, #[trigger] mesh.primitives@[i]) == Err::<(Seq<u32>, Seq<u32>, Seq<u32>, Seq<u32>), LoadError>(e)
                && forall|j: int| 0 <= j < i ==> (#[trigger] primitive_streams(*doc, fetched@, mesh.primitives@[j])) is Ok,
        },
{
    let mut primitives: Vec<GltfPrimitiveData> = Vec::new();
    let mut i: usize = 0;
    while i < mesh.primitives.len()
        invariant
            i <= mesh.primitives@.len(),
            primitives@.len() == i,
            forall|k: int| 0 <= k < i
                ==> is_decoded_primitive(#[trigger] primitives@[k], *doc, fetched@, mesh.primitives@[k]),
        decreases mesh.primitives@.len() - i,
    {
        match decode_primitive(doc, fetched, &mesh.primitives[i]) {
            Ok(d) => primitives.push(d),
            Err(e) => {
                assert forall|j: int| 0 <= j < i implies (#[trigger] primitive_streams(*doc, fetched@, mesh.primitives@[j])) is Ok by {
                    assert(is_decoded_primitive(primitives@[j], *doc, fetched@, mesh.primitives@[j]));
                }
                return Err(e);
            },
        }
        i += 1;
    }
    let name = match &mesh.name {
        Some(n) => n.clone(),
        None => String::from_str("unnamed"),
    };
    Ok(GltfMeshData { name, primitives })
}

impl GltfDocument {
    /// The file that buffer `b` is fetched from. Embedded binary buffers are
    /// not read by this loader.
    pub fn buffer_uri(&self, b: usize) -> (r: Result<String, LoadError>)
        ensures
            b >= self.buffers@.len() ==> r == Err::<String, LoadError>(LoadError::MalformedAsset),
            b < self.buffers@.len() ==> match self.buffers@[b as int] {
                BufferSource::Bin => r == Err::<String, LoadError>(LoadError::UnsupportedFormat),
                BufferSource::Uri(u) => r is Ok && r->Ok_0@ == u@,
            },
    {
        if b >= self.buffers.len() {
            return Err(LoadError::MalformedAsset);
        }
        match &self.buffers[b] {
            BufferSource::Bin => Err(LoadError::UnsupportedFormat),
            BufferSource::Uri(u) => Ok(u.clone()),
        }
    }
}

/// A primitive without an indices accessor fails with `MissingIndices`.
pub proof fn lemma_missing_indices(doc: GltfDocument, fetched: Seq<Vec<u8>>, p: PrimitiveDesc)
    requires
        p.indices is None,
    ensures
        primitive_streams(doc, fetched, p) == Err::<(Seq<u32>, Seq<u32>, Seq<u32>, Seq<u32>), LoadError>(LoadError::MissingIndices),
{
}

/// A view slices exactly bytes `[offset, offset + length)` of the fetched
/// buffer, and a shorter buffer fails with `BufferSliceError`.
pub proof fn lemma_view_slice_exact(bytes: Seq<u8>, offset: nat, length: nat)
    ensures
        offset + length <= bytes.len() ==> {
            let r = view_slice(bytes, offset as int, length as int);
            &&& r is Ok
            &&& r->Ok_0.len() == length
            &&& forall|k: int| 0 <= k < length ==> r->Ok_0[k] == bytes[offset + k]
        },
        offset + length > bytes.len() ==> view_slice(bytes, offset as int, length as int) == Err::<Seq<u8>, LoadError>(LoadError::BufferSliceError),
{
}

/// An accessor whose bytes live in the embedded binary chunk fails with
/// `UnsupportedFormat`.
pub proof fn lemma_embedded_buffer_unsupported(doc: GltfDocument, fetched: Seq<Vec<u8>>, a: int, dims: int, for_indices: bool)
    requires
        0 <= a < doc.accessors@.len(),
        component_supported(doc.accessors@[a].component, for_indices),
        doc.accessors@[a].dims == dims,
        doc.accessors@[a].view is Some,
        doc.accessors@[a].view->Some_0 < doc.views@.len(),
        doc.views@[doc.accessors@[a].view->Some_0 as int].buffer < doc.buffers@.len(),
        doc.buffers@[doc.views@[doc.accessors@[a].view->Some_0 as int].buffer as int] is Bin,
    ensures
        accessor_read(doc, fetched, a, dims, for_indices) == Err::<Seq<u32>, LoadError>(LoadError::UnsupportedFormat),
{
}

/// A primitive whose POSITION, NORMAL and TEXCOORD_0 accessors all read but
/// hold different numbers of elements fails with `MalformedAsset`.
pub proof fn lemma_unequal_attribute_counts(doc: GltfDocument, fetched: Seq<Vec<u8>>, p: PrimitiveDesc)
    requires
        p.indices is Some,
        p.position is Some,
        p.normal is Some,
        p.tex_coord is Some,
        accessor_read(doc, fetched, p.indices->Some_0 as int, 1, true) is Ok,
        accessor_read(doc, fetched, p.position->Some_0 as int, 3, false) is Ok,
        accessor_read(doc, fetched, p.normal->Some_0 as int, 3, false) is Ok,
        accessor_read(doc, fetched, p.tex_coord->Some_0 as int, 2, false) is Ok,
        doc.accessors@[p.position->Some_0 as int].count != doc.accessors@[p.normal->Some_0 as int].count
            || doc.accessors@[p.position->Some_0 as int].count != doc.accessors@[p.tex_coord->Some_0 as int].count,
    ensures
        primitive_streams(doc, fetched, p) == Err::<(Seq<u32>, Seq<u32>, Seq<u32>, Seq<u32>), LoadError>(LoadError::MalformedAsset),
{
    let cp = doc.accessors@[p.position->Some_0 as int].count as int;
    let cn = doc.accessors@[p.normal->Some_0 as int].count as int;
    let ct = doc.accessors@[p.tex_coord->Some_0 as int].count as int;
    let pos = accessor_read(doc, fetched, p.position->Some_0 as int, 3, false)->Ok_0;
    let nrm = accessor_read(doc, fetched, p.normal->Some_0 as int, 3, false)->Ok_0;
    let tex = accessor_read(doc, fetched, p.tex_coord->Some_0 as int, 2, false)->Ok_0;
    assert(pos.len() == cp * 3);
    assert(nrm.len() == cn * 3);
    assert(tex.len() == ct * 2);
    assert(pos.len() / 3 * 2 == cp * 2);
}

} // verus!
