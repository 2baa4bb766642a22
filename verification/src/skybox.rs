//! The sky box: the six faces of a cube map, kept in one texture of six layers.
//!
//! The faces are uploaded from one buffer that holds them one after the
//! other, each face row by row at four bytes for each pixel.

use vstd::prelude::*;

verus! {

/// The number of faces of a cube.
pub const CUBE_FACES: usize = 6;

/// The number of vertices of the cube that the sky box is drawn on: two
/// triangles for each face.
pub const SKYBOX_VERTEX_COUNT: u32 = 36;

/// The end of the file name of face `face`: the faces come in the order
/// +x, -x, +y, -y, +z, -z.
pub open spec fn spec_face_suffix(face: int) -> Seq<char> {
    if face == 0 {
        "_px.jpg"@
    } else if face == 1 {
        "_nx.jpg"@
    } else if face == 2 {
        "_py.jpg"@
    } else if face == 3 {
        "_ny.jpg"@
    } else if face == 4 {
        "_pz.jpg"@
    } else {
        "_nz.jpg"@
    }
}

/// The end of the file name of face `face`.
pub fn face_suffix(face: usize) -> (suffix: &'static str)
    requires
        face < CUBE_FACES,
    ensures
        suffix@ == spec_face_suffix(face as int),
{
    if face == 0 {
        "_px.jpg"
    } else if face == 1 {
        "_nx.jpg"
    } else if face == 2 {
        "_py.jpg"
    } else if face == 3 {
        "_ny.jpg"
    } else if face == 4 {
        "_pz.jpg"
    } else {
        "_nz.jpg"
    }
}

/// The copy of one face from the buffer of all faces into its layer of the
/// cube map.
#[derive(Debug, Clone, Copy, PartialEq, Eq, Structural)]
pub struct FaceCopy {
    /// Where the face begins in the buffer.
    pub offset: u64,
    pub bytes_per_row: u32,
    pub rows_per_image: u32,
    /// The layer of the texture that the face goes to.
    pub array_layer: u32,
}

/// The number of bytes of one face of `width` by `height` pixels.
pub open spec fn face_bytes(width: u32, height: u32) -> int {
    4 * (width as int * height as int)
}

/// The rows of a face and the buffer of all six faces can be counted: a row
/// in 32 bits, the buffer in 64.
pub open spec fn cubemap_fits(width: u32, height: u32) -> bool {
    4 * width <= u32::MAX && 6 * face_bytes(width, height) <= u64::MAX
}

/// The copy of face `face`: it begins where the faces before it end, and
/// goes to the layer of its number.
pub open spec fn spec_face_copy(width: u32, height: u32, face: int) -> FaceCopy {
    FaceCopy {
        offset: (face * face_bytes(width, height)) as u64,
        bytes_per_row: (4 * width) as u32,
        rows_per_image: height,
        array_layer: face as u32,
    }
}

/// The six copies that fill a cube map of faces of `width` by `height`
/// pixels, in the order of the faces; nothing where the sizes cannot be
/// counted.
pub fn cubemap_copies(width: u32, height: u32) -> (copies: Option<Vec<FaceCopy>>)
    ensures
        match copies {
            Some(c) => {
                &&& cubemap_fits(width, height)
                &&& c@.len() == 6
                &&& forall|i: int| 0 <= i < 6 ==> #[trigger] c@[i] == spec_face_copy(width, height, i)
            },
            None => !cubemap_fits(width, height),
        },
{
    if width > u32::MAX / 4 {
        return None;
    }
    let row: u32 = 4 * width;
    assert(width as int * height as int <= 0x3fff_ffff * 0xffff_ffff) by (nonlinear_arith)
        requires
            width <= 0x3fff_ffff,
            height <= 0xffff_ffff,
    ;
    let face: u64 = 4 * (width as u64 * height as u64);
    if face > u64::MAX / 6 {
        return None;
    }
    let mut copies: Vec<FaceCopy> = Vec::new();
    let mut i: u32 = 0;
    while i < 6
        invariant
            i <= 6,
            row == 4 * width,
            face == face_bytes(width, height),
            6 * face <= u64::MAX,
            copies@.len() == i,
            forall|k: int| 0 <= k < i ==> #[trigger] copies@[k] == spec_face_copy(width, height, k),
        decreases 6 - i,
    {
        assert(i as int * face as int <= 5 * face) by (nonlinear_arith)
            requires
                i <= 5,
                face >= 0,
        ;
        copies.push(
            FaceCopy {
                offset: i as u64 * face,
                bytes_per_row: row,
                rows_per_image: height,
                array_layer: i,
            },
        );
        i = i + 1;
    }
    Some(copies)
}

} // verus!
