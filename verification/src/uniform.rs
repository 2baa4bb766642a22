//! The layout of uniform data.
//!
//! Uniform buffers hold 32-bit components. A vector of three components is
//! followed by one component of padding, so that what comes after it starts
//! at a multiple of sixteen bytes.

use vstd::prelude::*;

verus! {

/// The number of components of a matrix of four by four.
pub const MATRIX_COMPONENTS: usize = 16;

/// A vector of three components with its padding.
pub open spec fn padded<T>(vector: Seq<T>, pad: T) -> Seq<T> {
    vector.push(pad)
}

/// The uniform data of a directional light: the direction, padded, then the colour.
pub open spec fn spec_light_data<T>(direction: Seq<T>, color: Seq<T>, pad: T) -> Seq<T> {
    padded(direction, pad) + color
}

/// The uniform data of a camera: the view matrix, the position, padded, and
/// the projection matrix.
pub open spec fn spec_transforms_data<T>(
    view: Seq<T>,
    position: Seq<T>,
    projection: Seq<T>,
    pad: T,
) -> Seq<T> {
    view + padded(position, pad) + projection
}

/// The uniform data of a light that casts shadows: the direction, padded,
/// then the matrix that takes the scene into the light's view.
pub open spec fn spec_shadow_light_data<T>(direction: Seq<T>, light_matrix: Seq<T>, pad: T) -> Seq<T> {
    padded(direction, pad) + light_matrix
}

fn append_all<T: Copy>(out: &mut Vec<T>, data: &[T])
    ensures
        final(out)@ == old(out)@ + data@,
{
    let ghost before = out@;
    let mut i: usize = 0;
    while i < data.len()
        invariant
            i <= data@.len(),
            out@ == before + data@.take(i as int),
        decreases data@.len() - i,
    {
        out.push(data[i]);
        assert(out@ =~= before + data@.take(i as int + 1));
        i = i + 1;
    }
    assert(data@.take(i as int) =~= data@);
}

/// Lays out the uniform data of a directional light.
pub fn light_data<T: Copy>(direction: &[T; 3], color: &[T; 3], pad: T) -> (data: Vec<T>)
    ensures
        data@ == spec_light_data(direction@, color@, pad),
        data@.len() == 7,
{
    let mut data: Vec<T> = Vec::new();
    append_all(&mut data, direction.as_slice());
    data.push(pad);
    append_all(&mut data, color.as_slice());
    assert(data@ =~= spec_light_data(direction@, color@, pad));
    data
}

/// Lays out the uniform data of a camera.
pub fn transforms_data<T: Copy>(
    view: &[T; 16],
    position: &[T; 3],
    projection: &[T; 16],
    pad: T,
) -> (data: Vec<T>)
    ensures
        data@ == spec_transforms_data(view@, position@, projection@, pad),
        data@.len() == 36,
{
    let mut data: Vec<T> = Vec::new();
    append_all(&mut data, view.as_slice());
    append_all(&mut data, position.as_slice());
    data.push(pad);
    append_all(&mut data, projection.as_slice());
    assert(data@ =~= spec_transforms_data(view@, position@, projection@, pad));
    data
}

/// Lays out the uniform data of a light that casts shadows.
pub fn shadow_light_data<T: Copy>(direction: &[T; 3], light_matrix: &[T; 16], pad: T) -> (data: Vec<
    T,
>)
    ensures
        data@ == spec_shadow_light_data(direction@, light_matrix@, pad),
        data@.len() == 20,
{
    let mut data: Vec<T> = Vec::new();
    append_all(&mut data, direction.as_slice());
    data.push(pad);
    append_all(&mut data, light_matrix.as_slice());
    assert(data@ =~= spec_shadow_light_data(direction@, light_matrix@, pad));
    data
}

} // verus!
