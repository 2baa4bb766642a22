//! Textures, texture views and samplers as this layer names them.

use vstd::prelude::*;
use vstd::string::StringSliceAdditionalSpecFns;
use crate::error::APURRendererError;

verus! {

/// The texture may be the source of a copy.
pub const TEXTURE_COPY_SRC: u32 = 1;
/// The texture may be the destination of a copy.
pub const TEXTURE_COPY_DST: u32 = 2;
/// The texture may be sampled in a shader.
pub const TEXTURE_SAMPLED: u32 = 4;
/// The texture may be bound as storage.
pub const TEXTURE_STORAGE: u32 = 8;
/// The texture may be rendered to.
pub const TEXTURE_OUTPUT_ATTACHMENT: u32 = 16;

/// How the texels of a texture are stored.
#[derive(Debug, Clone, Copy, PartialEq, Eq, Structural)]
pub enum TextureFormat {
    Rgba8Unorm,
    Rgba8UnormSrgb,
    Bgra8Unorm,
    Bgra8UnormSrgb,
    Rgba32Float,
    Depth32Float,
    Depth24Plus,
    Depth24PlusStencil8,
}

/// The shape in which a shader sees a texture.
#[derive(Debug, Clone, Copy, PartialEq, Eq, Structural)]
pub enum TextureViewDimension {
    D1,
    D2,
    D2Array,
    Cube,
    CubeArray,
    D3,
}

/// The type of the values that a shader samples from a texture.
#[derive(Debug, Clone, Copy, PartialEq, Eq, Structural)]
pub enum TextureComponentType {
    Float,
    Sint,
    Uint,
}

/// A view of a texture that lives with the graphics backend.
#[derive(Debug, Clone, Copy, PartialEq, Eq, Structural)]
pub struct TextureView {
    pub handle: u64,
}

/// A sampler that lives with the graphics backend.
#[derive(Debug, Clone, Copy, PartialEq, Eq, Structural)]
pub struct Sampler {
    pub handle: u64,
}

/// How many dimensions a texture has.
#[derive(Debug, Clone, Copy, PartialEq, Eq, Structural)]
pub enum TextureDimension {
    D1,
    D2,
    D3,
}

/// What the graphics backend needs to know to create a texture.
#[derive(Debug)]
pub struct TextureDescriptor {
    pub label: String,
    pub width: u32,
    pub height: u32,
    pub depth: u32,
    pub mip_level_count: u32,
    pub sample_count: u32,
    pub dimension: TextureDimension,
    pub format: TextureFormat,
    pub usage: u32,
}

impl TextureDescriptor {
    /// A two-dimensional texture of one layer, one mip level and one sample.
    pub open spec fn is_plain_2d(&self, width: u32, height: u32, format: TextureFormat, usage: u32) -> bool {
        &&& self.width == width
        &&& self.height == height
        &&& self.depth == 1
        &&& self.mip_level_count == 1
        &&& self.sample_count == 1
        &&& self.dimension == TextureDimension::D2
        &&& self.format == format
        &&& self.usage == usage
    }

    /// Describes a two-dimensional texture of one layer, one mip level and
    /// one sample.
    pub fn plain_2d(label: &str, width: u32, height: u32, format: TextureFormat, usage: u32) -> (desc:
        Self)
        ensures
            desc.label@ == label@,
            desc.is_plain_2d(width, height, format, usage),
    {
        TextureDescriptor {
            label: label.to_owned(),
            width,
            height,
            depth: 1,
            mip_level_count: 1,
            sample_count: 1,
            dimension: TextureDimension::D2,
            format,
            usage,
        }
    }
}

/// Something that a shader can read through a texture view.
pub trait Texture {
    /// The view through which the texture is seen.
    spec fn texture_view(&self) -> TextureView;

    /// The view through which the texture is seen.
    fn view(&self) -> (view: &TextureView)
        ensures
            *view == self.texture_view(),
    ;
}

/// A render target that holds depth only.
#[derive(Debug)]
pub struct DepthTexture {
    descriptor: TextureDescriptor,
    default_view: TextureView,
}

impl DepthTexture {
    pub closed spec fn spec_descriptor(&self) -> TextureDescriptor {
        self.descriptor
    }

    pub closed spec fn spec_view(&self) -> TextureView {
        self.default_view
    }

    /// A depth target of the given size, seen through `default_view`.
    pub fn new(default_view: TextureView, width: u32, height: u32) -> (texture: Self)
        ensures
            texture.spec_view() == default_view,
            texture.spec_descriptor().label@ == "Depth texture"@,
            texture.spec_descriptor().is_plain_2d(
                width,
                height,
                TextureFormat::Depth32Float,
                TEXTURE_OUTPUT_ATTACHMENT,
            ),
    {
        DepthTexture {
            descriptor: TextureDescriptor::plain_2d(
                "Depth texture",
                width,
                height,
                TextureFormat::Depth32Float,
                TEXTURE_OUTPUT_ATTACHMENT,
            ),
            default_view,
        }
    }

    pub fn descriptor(&self) -> (desc: &TextureDescriptor)
        ensures
            *desc == self.spec_descriptor(),
    {
        &self.descriptor
    }

}

impl Texture for DepthTexture {
    open spec fn texture_view(&self) -> TextureView {
        self.spec_view()
    }

    fn view(&self) -> (view: &TextureView) {
        &self.default_view
    }
}

/// A render target that holds depth and stencil.
#[derive(Debug)]
pub struct DepthStencilTexture {
    descriptor: TextureDescriptor,
    default_view: TextureView,
}

impl DepthStencilTexture {
    pub closed spec fn spec_descriptor(&self) -> TextureDescriptor {
        self.descriptor
    }

    pub closed spec fn spec_view(&self) -> TextureView {
        self.default_view
    }

    /// A depth-stencil target of the given size, seen through `default_view`.
    pub fn new(default_view: TextureView, width: u32, height: u32) -> (texture: Self)
        ensures
            texture.spec_view() == default_view,
            texture.spec_descriptor().label@ == "Depth-Stencil texture"@,
            texture.spec_descriptor().is_plain_2d(
                width,
                height,
                TextureFormat::Depth24PlusStencil8,
                TEXTURE_OUTPUT_ATTACHMENT,
            ),
    {
        DepthStencilTexture {
            descriptor: TextureDescriptor::plain_2d(
                "Depth-Stencil texture",
                width,
                height,
                TextureFormat::Depth24PlusStencil8,
                TEXTURE_OUTPUT_ATTACHMENT,
            ),
            default_view,
        }
    }

    pub fn descriptor(&self) -> (desc: &TextureDescriptor)
        ensures
            *desc == self.spec_descriptor(),
    {
        &self.descriptor
    }

}

impl Texture for DepthStencilTexture {
    open spec fn texture_view(&self) -> TextureView {
        self.spec_view()
    }

    fn view(&self) -> (view: &TextureView) {
        &self.default_view
    }
}

/// A render target that a fragment shader writes four 32-bit floats per
/// texel to.
#[derive(Debug)]
pub struct FragmentOutputTexture {
    descriptor: TextureDescriptor,
    default_view: TextureView,
}

impl FragmentOutputTexture {
    pub closed spec fn spec_descriptor(&self) -> TextureDescriptor {
        self.descriptor
    }

    pub closed spec fn spec_view(&self) -> TextureView {
        self.default_view
    }

    /// A colour target of the given size, seen through `default_view`.
    pub fn new(default_view: TextureView, width: u32, height: u32) -> (texture: Self)
        ensures
            texture.spec_view() == default_view,
            texture.spec_descriptor().label@ == "rgba32 out"@,
            texture.spec_descriptor().is_plain_2d(
                width,
                height,
                TextureFormat::Rgba32Float,
                TEXTURE_OUTPUT_ATTACHMENT,
            ),
    {
        FragmentOutputTexture {
            descriptor: TextureDescriptor::plain_2d(
                "rgba32 out",
                width,
                height,
                TextureFormat::Rgba32Float,
                TEXTURE_OUTPUT_ATTACHMENT,
            ),
            default_view,
        }
    }

    pub fn descriptor(&self) -> (desc: &TextureDescriptor)
        ensures
            *desc == self.spec_descriptor(),
    {
        &self.descriptor
    }

}

impl Texture for FragmentOutputTexture {
    open spec fn texture_view(&self) -> TextureView {
        self.spec_view()
    }

    fn view(&self) -> (view: &TextureView) {
        &self.default_view
    }
}

/// An image as it comes out of a decoder: its size in pixels and its pixels,
/// four bytes each (red, green, blue, alpha), row by row.
#[derive(Debug)]
pub struct DecodedImage {
    pub width: u32,
    pub height: u32,
    pub data: Vec<u8>,
}

/// The number of bytes of the header of a TGA file.
pub const TGA_HEADER_BYTES: usize = 18;

/// The width in pixels that the header of a TGA file gives.
pub open spec fn tga_width(contents: Seq<u8>) -> int
    recommends
        contents.len() >= 18,
{
    contents[12] as int + 256 * (contents[13] as int)
}

/// The height in pixels that the header of a TGA file gives.
pub open spec fn tga_height(contents: Seq<u8>) -> int
    recommends
        contents.len() >= 18,
{
    contents[14] as int + 256 * (contents[15] as int)
}

/// The number of bytes of the pixels that a TGA file describes, as they are
/// stored without compression.
pub open spec fn tga_pixel_bytes(contents: Seq<u8>) -> int
    recommends
        contents.len() >= 18,
{
    tga_width(contents) * tga_height(contents) * (contents[16] as int / 8)
}

/// Whether a TGA file is read by this layer. It is, if
///
/// * the header is there,
/// * the file has no colour map and is of true colour or grey, plain or
///   run-length encoded (image types 2, 3, 10 and 11),
/// * a pixel has 8, 16, 24 or 32 bits,
/// * the pixels, at four bytes each, can be counted in half the address
///   space, and
/// * the file is long enough to hold the pixels: all of them where they are
///   stored plainly, and one byte in 256 where they are run-length encoded (a
///   packet of two bytes gives at most 512).
pub open spec fn spec_tga_admitted(contents: Seq<u8>) -> bool {
    &&& contents.len() >= 18
    &&& contents[1] == 0
    &&& (contents[2] == 2 || contents[2] == 3 || contents[2] == 10 || contents[2] == 11)
    &&& (contents[16] == 8 || contents[16] == 16 || contents[16] == 24 || contents[16] == 32)
    &&& 4 * (tga_width(contents) * tga_height(contents)) <= usize::MAX / 2
    &&& tga_pixel_bytes(contents) <= (if contents[2] == 10 || contents[2] == 11 {
        256 * (contents.len() - 18)
    } else {
        contents.len() - 18
    })
}

/// Whether the TGA file `contents` is read by this layer.
pub fn tga_admitted(contents: &[u8]) -> (yes: bool)
    ensures
        yes == spec_tga_admitted(contents@),
{
    if contents.len() < TGA_HEADER_BYTES {
        return false;
    }
    let image_type: u8 = contents[2];
    let depth: u8 = contents[16];
    if contents[1] != 0 {
        return false;
    }
    if !(image_type == 2 || image_type == 3 || image_type == 10 || image_type == 11) {
        return false;
    }
    if !(depth == 8 || depth == 16 || depth == 24 || depth == 32) {
        return false;
    }
    let width: u64 = contents[12] as u64 + 256 * (contents[13] as u64);
    let height: u64 = contents[14] as u64 + 256 * (contents[15] as u64);
    assert(width * height <= 65535 * 65535) by (nonlinear_arith)
        requires
            width <= 65535,
            height <= 65535,
    ;
    let pixels: u64 = width * height;
    if 4 * pixels > (usize::MAX / 2) as u64 {
        return false;
    }
    let per_pixel: u64 = depth as u64 / 8;
    assert(pixels * per_pixel <= 65535 * 65535 * 4) by (nonlinear_arith)
        requires
            pixels <= 65535 * 65535,
            per_pixel <= 4,
    ;
    let pixel_bytes: u64 = pixels * per_pixel;
    let rest: u128 = (contents.len() - TGA_HEADER_BYTES) as u128;
    if image_type == 10 || image_type == 11 {
        pixel_bytes as u128 <= 256 * rest
    } else {
        pixel_bytes as u128 <= rest
    }
}

/// What the image decoder makes of the bytes of a TGA file: width, height and
/// RGBA pixels, or nothing where it rejects the bytes.
pub uninterp spec fn spec_decode_tga(contents: Seq<u8>) -> Option<(u32, u32, Seq<u8>)>;

/// `image` is what the decoder's result `decoded` says.
pub open spec fn image_is(image: Option<DecodedImage>, decoded: Option<(u32, u32, Seq<u8>)>) -> bool {
    match image {
        Some(i) => decoded == Some((i.width, i.height, i.data@)),
        None => decoded.is_none(),
    }
}

/// Decodes a TGA image with `image::load_from_memory_with_format` and
/// converts it to RGBA with 8 bits per channel.
///
/// Trusted: on the files that this layer reads the decoder returns, its
/// result depends on the bytes alone, and an error of the decoder comes back
/// as `None`. Files with a colour map are left out because the decoder can
/// stop on them; the bounds on the size keep its buffers within what the
/// file's own length accounts for.
#[verifier::external_body]
fn decode_tga(contents: &[u8]) -> (image: Option<DecodedImage>)
    requires
        spec_tga_admitted(contents@),
    ensures
        image_is(image, spec_decode_tga(contents@)),
{
    match image::load_from_memory_with_format(contents, image::ImageFormat::Tga) {
        Ok(decoded) => {
            let rgba = decoded.into_rgba8();
            Some(DecodedImage { width: rgba.width(), height: rgba.height(), data: rgba.into_raw() })
        },
        Err(_) => None,
    }
}

/// The bytes of the suffix by which a TGA file is told: `.tga`.
pub open spec fn tga_suffix() -> Seq<u8> {
    seq![46u8, 116u8, 103u8, 97u8]
}

/// Whether `name`, as bytes, ends in `.tga`.
pub open spec fn spec_is_tga(name: Seq<u8>) -> bool {
    name.len() >= 4 && name.subrange(name.len() - 4, name.len() as int) == tga_suffix()
}

/// Whether the file name `name` ends in `.tga`.
pub fn is_tga(name: &str) -> (yes: bool)
    ensures
        yes == spec_is_tga(name.spec_bytes()),
{
    let bytes = name.as_bytes();
    let n: usize = bytes.len();
    if n < 4 {
        return false;
    }
    let yes = bytes[n - 4] == 46u8 && bytes[n - 3] == 116u8 && bytes[n - 2] == 103u8 && bytes[n - 1]
        == 97u8;
    proof {
        let tail = bytes@.subrange(n - 4, n as int);
        if yes {
            assert(tail =~= tga_suffix());
        } else {
            assert(tail[0] == bytes@[n - 4]);
            assert(tail[1] == bytes@[n - 3]);
            assert(tail[2] == bytes@[n - 2]);
            assert(tail[3] == bytes@[n - 1]);
        }
    }
    yes
}

/// What reading the TGA file `contents` comes to: what the decoder makes of a
/// file that this layer reads, and nothing for any other.
pub open spec fn spec_read_tga(contents: Seq<u8>) -> Option<(u32, u32, Seq<u8>)> {
    if spec_tga_admitted(contents) {
        spec_decode_tga(contents)
    } else {
        None
    }
}

/// What `image` holds, as mathematical values.
pub open spec fn image_view(image: Option<DecodedImage>) -> Option<(u32, u32, Seq<u8>)> {
    match image {
        Some(i) => Some((i.width, i.height, i.data@)),
        None => None,
    }
}

/// A texture to create and the pixels to copy into it.
#[derive(Debug)]
pub struct TextureUpload {
    pub view: TextureView,
    pub descriptor: TextureDescriptor,
    pub data: Vec<u8>,
    pub bytes_per_row: u32,
    pub rows_per_image: u32,
}

impl TextureUpload {
    /// The upload creates a sampled RGBA texture of `width` by `height` under
    /// the label `name`, seen through `view`, and fills it with `data`, row
    /// by row.
    pub open spec fn carries(
        &self,
        view: TextureView,
        name: Seq<char>,
        width: u32,
        height: u32,
        data: Seq<u8>,
    ) -> bool {
        &&& self.view == view
        &&& self.descriptor.label@ == name
        &&& self.descriptor.is_plain_2d(
            width,
            height,
            TextureFormat::Rgba8Unorm,
            TEXTURE_SAMPLED | TEXTURE_COPY_DST,
        )
        &&& self.data@ == data
        &&& self.bytes_per_row == 4 * width
        &&& self.rows_per_image == height
    }
}

/// The upload of `image` as the texture `name`, seen through `view`.
pub fn texture_upload(view: TextureView, name: &str, image: DecodedImage) -> (upload: TextureUpload)
    requires
        4 * image.width <= u32::MAX,
    ensures
        upload.carries(view, name@, image.width, image.height, image.data@),
{
    let descriptor = TextureDescriptor::plain_2d(
        name,
        image.width,
        image.height,
        TextureFormat::Rgba8Unorm,
        TEXTURE_SAMPLED | TEXTURE_COPY_DST,
    );
    TextureUpload {
        view,
        descriptor,
        bytes_per_row: 4 * image.width,
        rows_per_image: image.height,
        data: image.data,
    }
}

/// What loading comes to for each result of the decoder: a rejected file and
/// an image too wide for its rows to be counted in bytes are refused.
pub open spec fn spec_upload_of(
    upload: Result<TextureUpload, APURRendererError>,
    view: TextureView,
    name: Seq<char>,
    decoded: Option<(u32, u32, Seq<u8>)>,
) -> bool {
    match decoded {
        Some((width, height, data)) if 4 * width <= u32::MAX => upload.is_ok()
            && upload.unwrap().carries(view, name, width, height, data),
        _ => upload.is_err() && upload.unwrap_err() == APURRendererError::ErrorLoadingTextureImage,
    }
}

/// The upload that a decoded image, or the lack of one, comes to.
pub fn upload_decoded(view: TextureView, name: &str, image: Option<DecodedImage>) -> (upload: Result<
    TextureUpload,
    APURRendererError,
>)
    ensures
        match image {
            Some(i) if 4 * i.width <= u32::MAX => upload.is_ok() && upload.unwrap().carries(
                view,
                name@,
                i.width,
                i.height,
                i.data@,
            ),
            _ => upload.is_err() && upload.unwrap_err()
                == APURRendererError::ErrorLoadingTextureImage,
        },
{
    match image {
        Some(image) => {
            if image.width > u32::MAX / 4 {
                return Err(APURRendererError::ErrorLoadingTextureImage);
            }
            Ok(texture_upload(view, name, image))
        },
        None => Err(APURRendererError::ErrorLoadingTextureImage),
    }
}

/// Reads the TGA file `contents`: decodes it if it is one that this layer
/// reads.
pub fn read_tga(contents: &[u8]) -> (image: Option<DecodedImage>)
    ensures
        image_is(image, spec_read_tga(contents@)),
{
    if tga_admitted(contents) {
        decode_tga(contents)
    } else {
        None
    }
}

/// The upload is a sampled two-dimensional RGBA texture under the label
/// `name`, seen through `view`, whose rows take four bytes for each pixel.
pub open spec fn is_texture_upload(upload: TextureUpload, view: TextureView, name: Seq<char>) -> bool {
    &&& upload.view == view
    &&& upload.descriptor.label@ == name
    &&& upload.descriptor.is_plain_2d(
        upload.descriptor.width,
        upload.descriptor.height,
        TextureFormat::Rgba8Unorm,
        TEXTURE_SAMPLED | TEXTURE_COPY_DST,
    )
    &&& upload.bytes_per_row == 4 * upload.descriptor.width
    &&& upload.rows_per_image == upload.descriptor.height
}

/// Describes the texture to make of the image file `texture_name`.
///
/// A file whose name ends in `.tga` is decoded here from `contents`, and
/// `decoded` is ignored. For a file of any other name `decoded` is what the
/// caller's decoder made of the file, `None` where it rejected it.
///
/// Fails with `ErrorLoadingTextureImage` if there is no image: a TGA file
/// that this layer does not read or that the decoder rejects, or a file of
/// another name for which nothing was decoded; and if the image is too wide
/// for the bytes of a row to be counted in 32 bits.
pub fn load_texture(
    view: TextureView,
    texture_name: &str,
    contents: &[u8],
    decoded: Option<DecodedImage>,
) -> (upload: Result<TextureUpload, APURRendererError>)
    ensures
        spec_upload_of(
            upload,
            view,
            texture_name@,
            if spec_is_tga(texture_name.spec_bytes()) {
                spec_read_tga(contents@)
            } else {
                image_view(decoded)
            },
        ),
        upload.is_ok() ==> is_texture_upload(upload.unwrap(), view, texture_name@),
        upload.is_err() ==> upload.unwrap_err() == APURRendererError::ErrorLoadingTextureImage,
{
    let image = if is_tga(texture_name) {
        read_tga(contents)
    } else {
        decoded
    };
    upload_decoded(view, texture_name, image)
}

} // verus!
