//! Structural checks of ingested geometry and the per-vertex triangle counts
//! that average the tangent basis.
use vstd::prelude::*;

verus! {

/// Why a sub-mesh cannot be ingested.
#[derive(Clone, Copy, Debug, PartialEq, Eq)]
pub enum MeshError {
    /// Fewer texture coordinates than two per vertex.
    MissingTexCoords,
    /// Fewer normal components than three per vertex.
    MissingNormals,
    /// The index list does not split into whole triangles.
    IncompleteTriangle,
    /// The index at this position names no vertex.
    IndexOutOfRange(usize),
}

/// How many times `v` occurs in `s`.
pub open spec fn occurrences(s: Seq<u32>, v: int) -> nat
    decreases s.len(),
{
    if s.len() == 0 {
        0
    } else {
        occurrences(s.drop_last(), v) + if s.last() == v {
            1nat
        } else {
            0nat
        }
    }
}

/// Whether every index names one of `n` vertices.
pub open spec fn indices_in_range(s: Seq<u32>, n: int) -> bool {
    forall|i: int| 0 <= i < s.len() ==> #[trigger] s[i] < n
}

/// The number of vertices of a sub-mesh, given the lengths of its flat position,
/// texture-coordinate and normal arrays: one per three position components.
pub fn vertex_count(positions: usize, tex_coords: usize, normals: usize) -> (r: Result<usize, MeshError>)
    ensures
        match r {
            Ok(n) => n == positions / 3 && tex_coords >= 2 * n && normals >= 3 * n,
            Err(MeshError::MissingTexCoords) => tex_coords < 2 * (positions / 3),
            Err(MeshError::MissingNormals) => tex_coords >= 2 * (positions / 3) && normals < 3 * (
            positions / 3),
            Err(_) => false,
        },
{
    let n = positions / 3;
    if tex_coords / 2 < n {
        Err(MeshError::MissingTexCoords)
    } else if normals / 3 < n {
        Err(MeshError::MissingNormals)
    } else {
        Ok(n)
    }
}

proof fn lemma_occurrences_push(s: Seq<u32>, x: u32, v: int)
    ensures
        occurrences(s.push(x), v) == occurrences(s, v) + if x == v {
            1nat
        } else {
            0nat
        },
{
    assert(s.push(x).drop_last() =~= s);
}

/// For each of `vertex_count` vertices, how many triangle corners name it.
/// The indices must form whole triangles of valid vertices.
pub fn triangle_contributions(indices: &Vec<u32>, vertex_count: usize) -> (r: Result<
    Vec<usize>,
    MeshError,
>)
    ensures
        r is Ok <==> indices.len() % 3 == 0 && indices_in_range(indices@, vertex_count as int),
        r matches Ok(counts) ==> {
            &&& counts.len() == vertex_count
            &&& forall|v: int| 0 <= v < vertex_count ==> #[trigger] counts@[v] == occurrences(indices@, v)
        },
        r matches Err(e) ==> (e is IncompleteTriangle <==> indices.len() % 3 != 0),
        r matches Err(MeshError::IndexOutOfRange(k)) ==> {
            &&& k < indices.len()
            &&& indices@[k as int] >= vertex_count
            &&& indices_in_range(indices@.take(k as int), vertex_count as int)
        },
        !(r matches Err(MeshError::MissingTexCoords)),
        !(r matches Err(MeshError::MissingNormals)),
{
    if indices.len() % 3 != 0 {
        return Err(MeshError::IncompleteTriangle);
    }
    let mut counts: Vec<usize> = Vec::new();
    let mut v: usize = 0;
    while v < vertex_count
        invariant
            v <= vertex_count,
            counts.len() == v,
            forall|j: int| 0 <= j < v ==> #[trigger] counts@[j] == 0,
        decreases vertex_count - v,
    {
        counts.push(0);
        v = v + 1;
    }
    let mut i: usize = 0;
    while i < indices.len()
        invariant
            i <= indices.len(),
            indices.len() % 3 == 0,
            counts.len() == vertex_count,
            indices_in_range(indices@.take(i as int), vertex_count as int),
            forall|j: int| 0 <= j < vertex_count ==> #[trigger] counts@[j] == occurrences(indices@.take(i as int), j),
            forall|j: int| 0 <= j < vertex_count ==> #[trigger] counts@[j] <= i,
        decreases indices.len() - i,
    {
        let idx = indices[i];
        if (idx as usize) >= vertex_count {
            return Err(MeshError::IndexOutOfRange(i));
        }
        let ghost prefix = indices@.take(i as int);
        proof {
            assert(indices@.take(i + 1) =~= prefix.push(idx));
            assert forall|j: int| 0 <= j < vertex_count implies occurrences(indices@.take(i + 1), j)
                == occurrences(prefix, j) + if idx == j { 1nat } else { 0nat } by {
                lemma_occurrences_push(prefix, idx, j);
            }
        }
        let c = counts[idx as usize];
        counts.set(idx as usize, c + 1);
        i = i + 1;
    }
    proof {
        assert(indices@.take(indices.len() as int) =~= indices@);
    }
    Ok(counts)
}

/// The material of a sub-mesh: the one it declares, else the first.
pub fn mesh_material(declared: Option<usize>) -> (r: usize)
    ensures
        r == match declared {
            Some(m) => m,
            None => 0,
        },
{
    match declared {
        Some(m) => m,
        None => 0,
    }
}

/// A vertex that some index names is counted at least once, so the average of
/// its tangent basis never divides by zero.
pub proof fn lemma_referenced_vertex_counted(s: Seq<u32>, k: int)
    requires
        0 <= k < s.len(),
    ensures
        occurrences(s, s[k] as int) >= 1,
    decreases s.len(),
{
    if k < s.len() - 1 {
        lemma_referenced_vertex_counted(s.drop_last(), k);
    }
}

} // verus!
