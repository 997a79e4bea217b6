//! Mesh geometry for the physics engine: turning the index buffer of a
//! triangle list into the faces of a collision mesh.

use vstd::prelude::*;

verus! {

/// The index buffer of a mesh, in either of the two widths in which meshes
/// store it.
#[derive(Clone, Copy, Debug, PartialEq, Eq)]
pub enum MeshIndices<'a> {
    U16(&'a [u16]),
    U32(&'a [u32]),
}

impl<'a> View for MeshIndices<'a> {
    type V = Seq<u32>;

    /// The indices in order, each widened to 32 bits.
    open spec fn view(&self) -> Seq<u32> {
        match self {
            MeshIndices::U16(narrow) => narrow@.map_values(|index: u16| index as u32),
            MeshIndices::U32(wide) => wide@,
        }
    }
}

/// Whether `faces` cuts `indices` into consecutive triangles: face `f` holds
/// the three indices from position `3 * f` on, and no index is left over.
pub open spec fn faces_of(indices: Seq<u32>, faces: Seq<[u32; 3]>) -> bool {
    &&& indices.len() == 3 * faces.len()
    &&& forall|f: int, corner: int|
        0 <= f < faces.len() && 0 <= corner < 3 ==> (#[trigger] faces[f][corner]) == indices[3 * f
            + corner]
}

/// Groups the indices of a triangle list into faces of three corners each,
/// in the order of the buffer.
pub fn triangles(indices: MeshIndices) -> (faces: Vec<[u32; 3]>)
    requires
        indices@.len() % 3 == 0,
    ensures
        faces_of(indices@, faces@),
{
    let mut faces: Vec<[u32; 3]> = Vec::new();
    let mut at: usize = 0;
    match indices {
        MeshIndices::U16(narrow) => {
            while at < narrow.len()
                invariant
                    indices@ == narrow@.map_values(|index: u16| index as u32),
                    narrow@.len() % 3 == 0,
                    at <= narrow@.len(),
                    at == 3 * faces@.len(),
                    forall|f: int, corner: int|
                        0 <= f < faces@.len() && 0 <= corner < 3 ==> (#[trigger] faces@[f][corner])
                            == indices@[3 * f + corner],
                decreases narrow@.len() - at,
            {
                let face: [u32; 3] = [
                    narrow[at] as u32,
                    narrow[at + 1] as u32,
                    narrow[at + 2] as u32,
                ];
                faces.push(face);
                at = at + 3;
            }
        },
        MeshIndices::U32(wide) => {
            while at < wide.len()
                invariant
                    indices@ == wide@,
                    wide@.len() % 3 == 0,
                    at <= wide@.len(),
                    at == 3 * faces@.len(),
                    forall|f: int, corner: int|
                        0 <= f < faces@.len() && 0 <= corner < 3 ==> (#[trigger] faces@[f][corner])
                            == indices@[3 * f + corner],
                decreases wide@.len() - at,
            {
                let face: [u32; 3] = [wide[at], wide[at + 1], wide[at + 2]];
                faces.push(face);
                at = at + 3;
            }
        },
    }
    faces
}

} // verus!
