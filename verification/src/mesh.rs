use vstd::prelude::*;

verus! {

/// Groups a flat list of vertex indices into one triple per triangle: face
/// `f` uses indices `3f`, `3f + 1` and `3f + 2`.
pub fn face_triples(indices: &Vec<u32>) -> (r: Vec<[usize; 3]>)
    requires
        indices@.len() % 3 == 0,
    ensures
        r@.len() * 3 == indices@.len(),
        forall|f: int, c: int|
            0 <= f < r@.len() && 0 <= c < 3 ==> #[trigger] r@[f]@[c] == indices@[3 * f + c],
{
    let n = indices.len();
    let mut r: Vec<[usize; 3]> = Vec::new();
    let mut i: usize = 0;
    while i < n
        invariant
            n == indices@.len(),
            n % 3 == 0,
            i % 3 == 0,
            i <= n,
            r@.len() * 3 == i,
            forall|f: int, c: int|
                0 <= f < r@.len() && 0 <= c < 3 ==> #[trigger] r@[f]@[c] == indices@[3 * f + c],
        decreases n - i,
    {
        let t: [usize; 3] = [indices[i] as usize, indices[i + 1] as usize, indices[i + 2] as usize];
        let ghost f = r@.len() as int;
        r.push(t);
        proof {
            assert forall|g: int, c: int| 0 <= g < r@.len() && 0 <= c < 3 implies #[trigger] r@[g]@[c]
                == indices@[3 * g + c] by {
                if g == f {
                    assert(3 * g == i);
                }
            }
        }
        i = i + 3;
    }
    r
}

/// The attribute indices of face `face` when the mesh has them for that
/// face (a mesh may carry normals or texture coordinates for only some of
/// its faces, or for none).
pub fn face_attribute(faces: &Vec<[usize; 3]>, face: usize) -> (r: Option<[usize; 3]>)
    ensures
        face < faces@.len() ==> r == Some(faces@[face as int]),
        face >= faces@.len() ==> r is None,
{
    if faces.len() > face {
        Some(faces[face])
    } else {
        None
    }
}

} // verus!
