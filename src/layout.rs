use vstd::prelude::*;

verus! {

/// One interleaved vertex. Components are the bit patterns of 32-bit floats,
/// carried without interpretation.
#[derive(Debug, Clone, Copy)]
pub struct Vertex {
    pub position: [u32; 3],
    pub tex_coord: [u32; 2],
    pub normal: [u32; 3],
}

/// Vertex `v` is record `i` of the flat streams: three position components,
/// two texture coordinates and three normal components per vertex.
pub open spec fn vertex_is(v: Vertex, pos: Seq<u32>, tex: Seq<u32>, nrm: Seq<u32>, i: int) -> bool {
    &&& v.position@ == pos.subrange(3 * i, 3 * i + 3)
    &&& v.tex_coord@ == tex.subrange(2 * i, 2 * i + 2)
    &&& v.normal@ == nrm.subrange(3 * i, 3 * i + 3)
}

/// `vs` holds, in order, one vertex for each record of the streams.
pub open spec fn vertices_of(vs: Seq<Vertex>, pos: Seq<u32>, tex: Seq<u32>, nrm: Seq<u32>) -> bool {
    &&& vs.len() * 3 == pos.len()
    &&& vs.len() * 2 == tex.len()
    &&& vs.len() * 3 == nrm.len()
    &&& forall|i: int| 0 <= i < vs.len() ==> vertex_is(#[trigger] vs[i], pos, tex, nrm, i)
}

/// Interleaves streams that already describe `n` vertices each.
pub fn zip_vertices(pos: &Vec<u32>, tex: &Vec<u32>, nrm: &Vec<u32>, n: usize) -> (r: Vec<Vertex>)
    requires
        pos@.len() == 3 * n,
        tex@.len() == 2 * n,
        nrm@.len() == 3 * n,
    ensures
        r@.len() == n,
        vertices_of(r@, pos@, tex@, nrm@),
{
    let pl = pos.len();
    let tl = tex.len();
    let mut out: Vec<Vertex> = Vec::new();
    let mut i: usize = 0;
    while i < n
        invariant
            i <= n,
            pl == 3 * n,
            tl == 2 * n,
            pos@.len() == 3 * n,
            tex@.len() == 2 * n,
            nrm@.len() == 3 * n,
            out@.len() == i,
            forall|k: int| 0 <= k < i ==> vertex_is(#[trigger] out@[k], pos@, tex@, nrm@, k),
        decreases n - i,
    {
        let v = Vertex {
            position: [pos[3 * i], pos[3 * i + 1], pos[3 * i + 2]],
            tex_coord: [tex[2 * i], tex[2 * i + 1]],
            normal: [nrm[3 * i], nrm[3 * i + 1], nrm[3 * i + 2]],
        };
        assert(v.position@ =~= pos@.subrange(3 * i as int, 3 * i as int + 3));
        assert(v.tex_coord@ =~= tex@.subrange(2 * i as int, 2 * i as int + 2));
        assert(v.normal@ =~= nrm@.subrange(3 * i as int, 3 * i as int + 3));
        out.push(v);
        i += 1;
    }
    out
}

/// What, if anything, stops flat streams from being interleaved: an empty
/// stream, or streams that do not describe the same number of whole vertices.
pub open spec fn interleave_error(pos: Seq<u32>, tex: Seq<u32>, nrm: Seq<u32>) -> Option<crate::LoadError> {
    if pos.len() == 0 || tex.len() == 0 || nrm.len() == 0 {
        Some(crate::LoadError::MissingAttribute)
    } else if !(pos.len() % 3 == 0 && tex.len() == pos.len() / 3 * 2 && nrm.len() == pos.len()) {
        Some(crate::LoadError::AttributeLengthMismatch)
    } else {
        None
    }
}

/// Interleaves flat attribute streams into vertices.
pub fn interleave(pos: &Vec<u32>, tex: &Vec<u32>, nrm: &Vec<u32>) -> (r: Result<Vec<Vertex>, crate::LoadError>)
    ensures
        match r {
            Ok(vs) => interleave_error(pos@, tex@, nrm@) is None && vertices_of(vs@, pos@, tex@, nrm@),
            Err(e) => interleave_error(pos@, tex@, nrm@) == Some(e),
        },
{
    if pos.len() == 0 || tex.len() == 0 || nrm.len() == 0 {
        return Err(crate::LoadError::MissingAttribute);
    }
    if pos.len() % 3 != 0 || tex.len() != pos.len() / 3 * 2 || nrm.len() != pos.len() {
        return Err(crate::LoadError::AttributeLengthMismatch);
    }
    let n = pos.len() / 3;
    Ok(zip_vertices(pos, tex, nrm, n))
}

/// Byte `j` (0 to 3) of `x` in little-endian order.
pub open spec fn le_byte(x: u32, j: int) -> u8 {
    ((x >> ((8 * j) as u32)) & 0xffu32) as u8
}

/// The little-endian encoding of a sequence of 32-bit words.
pub open spec fn le_bytes(w: Seq<u32>) -> Seq<u8> {
    Seq::new(4 * w.len(), |k: int| le_byte(w[k / 4], k % 4))
}

/// Packs words into their little-endian bytes, as they are uploaded to the GPU.
pub fn pack_words(w: &Vec<u32>) -> (r: Vec<u8>)
    requires
        w@.len() * 4 <= usize::MAX,
    ensures
        r@ == le_bytes(w@),
{
    let mut out: Vec<u8> = Vec::new();
    let mut i: usize = 0;
    while i < w.len()
        invariant
            i <= w@.len(),
            w@.len() * 4 <= usize::MAX,
            out@.len() == 4 * i,
            forall|k: int| 0 <= k < 4 * i ==> #[trigger] out@[k] == le_byte(w@[k / 4], k % 4),
        decreases w@.len() - i,
    {
        let x = w[i];
        let mut j: u32 = 0;
        while j < 4
            invariant
                i < w@.len(),
                x == w@[i as int],
                j <= 4,
                out@.len() == 4 * i + j,
                forall|k: int| 0 <= k < 4 * i + j ==> #[trigger] out@[k] == le_byte(w@[k / 4], k % 4),
            decreases 4 - j,
        {
            out.push(((x >> (8 * j)) & 0xff) as u8);
            proof {
                let k = 4 * i + j;
                assert(k / 4 == i as int && k % 4 == j as int);
            }
            j += 1;
        }
        i += 1;
    }
    assert(out@ =~= le_bytes(w@));
    out
}

/// The words of one vertex in upload order: position, texture coordinates, normal.
pub open spec fn vertex_word(v: Vertex, c: int) -> u32 {
    if c < 3 { v.position[c] } else if c < 5 { v.tex_coord[c - 3] } else { v.normal[c - 5] }
}

/// All vertices as consecutive 8-word records.
pub open spec fn vertex_words_of(vs: Seq<Vertex>) -> Seq<u32> {
    Seq::new(8 * vs.len(), |k: int| vertex_word(vs[k / 8], k % 8))
}

/// Lays vertices out as consecutive 8-word records.
pub fn vertex_words(vs: &Vec<Vertex>) -> (r: Vec<u32>)
    requires
        vs@.len() * 8 <= usize::MAX,
    ensures
        r@ == vertex_words_of(vs@),
{
    let mut out: Vec<u32> = Vec::new();
    let mut i: usize = 0;
    while i < vs.len()
        invariant
            i <= vs@.len(),
            vs@.len() * 8 <= usize::MAX,
            out@.len() == 8 * i,
            forall|k: int| 0 <= k < 8 * i ==> #[trigger] out@[k] == vertex_word(vs@[k / 8], k % 8),
        decreases vs@.len() - i,
    {
        let v = vs[i];
        let words: [u32; 8] = [
            v.position[0], v.position[1], v.position[2],
            v.tex_coord[0], v.tex_coord[1],
            v.normal[0], v.normal[1], v.normal[2],
        ];
        let mut j: usize = 0;
        while j < 8
            invariant
                i < vs@.len(),
                v == vs@[i as int],
                words@ == seq![v.position[0], v.position[1], v.position[2], v.tex_coord[0], v.tex_coord[1], v.normal[0], v.normal[1], v.normal[2]],
                j <= 8,
                out@.len() == 8 * i + j,
                forall|k: int| 0 <= k < 8 * i + j ==> #[trigger] out@[k] == vertex_word(vs@[k / 8], k % 8),
            decreases 8 - j,
        {
            out.push(words[j]);
            proof {
                let k = 8 * i + j;
                assert(k / 8 == i as int && k % 8 == j as int);
            }
            j += 1;
        }
        i += 1;
    }
    assert(out@ =~= vertex_words_of(vs@));
    out
}

} // verus!
