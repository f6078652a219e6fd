//! Checks on indexed triangle meshes before they go to the GPU backend.

use vstd::prelude::*;
use crate::error::ResourceCreationError;

verus! {

/// Whether every index names one of `vertices` vertices.
pub open spec fn spec_indices_in_range(indices: Seq<u16>, vertices: nat) -> bool {
    forall|i: int| 0 <= i < indices.len() ==> (#[trigger] indices[i]) < vertices
}

/// Checks that a mesh of `positions` positions, `normals` normals and the
/// given triangle-list indices hangs together, and gives the number of its
/// triangles. The checks come in this order, and the first that fails
/// decides the error: as many normals as positions; indices in threes;
/// every index names a vertex (the error carries the place of the first
/// that does not).
pub fn check_mesh(positions: usize, normals: usize, indices: &[u16]) -> (r: Result<
    usize,
    ResourceCreationError,
>)
    ensures
        match r {
            Ok(triangles) => {
                &&& positions == normals
                &&& indices@.len() == 3 * triangles
                &&& spec_indices_in_range(indices@, positions as nat)
            },
            Err(ResourceCreationError::NormalCountMismatch) => positions != normals,
            Err(ResourceCreationError::IncompleteTriangle) => {
                &&& positions == normals
                &&& indices@.len() % 3 != 0
            },
            Err(ResourceCreationError::IndexOutOfRange { position }) => {
                &&& positions == normals
                &&& indices@.len() % 3 == 0
                &&& position < indices@.len()
                &&& indices@[position as int] >= positions
                &&& spec_indices_in_range(indices@.take(position as int), positions as nat)
            },
            Err(_) => false,
        },
{
    if positions != normals {
        return Err(ResourceCreationError::NormalCountMismatch);
    }
    if indices.len() % 3 != 0 {
        return Err(ResourceCreationError::IncompleteTriangle);
    }
    let mut i: usize = 0;
    while i < indices.len()
        invariant
            i <= indices@.len(),
            positions == normals,
            indices@.len() % 3 == 0,
            spec_indices_in_range(indices@.take(i as int), positions as nat),
        decreases indices@.len() - i,
    {
        if indices[i] as usize >= positions {
            return Err(ResourceCreationError::IndexOutOfRange { position: i });
        }
        assert forall|j: int| 0 <= j < i + 1 implies (#[trigger] indices@.take(i + 1)[j])
            < positions by {
            if j < i {
                assert(indices@.take(i as int)[j] == indices@[j]);
            }
        }
        i = i + 1;
    }
    assert(indices@.take(i as int) =~= indices@);
    Ok(indices.len() / 3)
}

} // verus!
