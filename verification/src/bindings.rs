//! Resource bindings: the fixed binding-set layouts shared by every pipeline
//! variant, and the texture data decoded from the embedded image asset.
//!
//! The GPU-side objects (texture, sampler, bind groups) are created by the
//! driver from the plain descriptions built here.

use vstd::prelude::*;

verus! {

/// The shader stage a binding is visible to.
#[derive(Clone, Copy, Debug, PartialEq, Eq, Structural)]
pub enum StageVisibility {
    VertexStage,
    FragmentStage,
}

/// The type contract of one binding slot.
#[derive(Clone, Copy, Debug, PartialEq, Eq, Structural)]
pub enum BindingKind {
    /// A sampled, filterable, single-sampled 2D float texture.
    SampledTexture2d,
    /// A filtering sampler.
    FilteringSampler,
    /// A uniform buffer.
    UniformBuffer,
}

/// One entry of a binding-set layout: the slot number, the stage that sees
/// it, and the kind of resource it must hold.
#[derive(Clone, Copy, Debug, PartialEq, Eq, Structural)]
pub struct BindingLayoutEntry {
    pub binding: u32,
    pub visibility: StageVisibility,
    pub kind: BindingKind,
}

/// A binding-set layout: the type/slot contract a binding set must satisfy.
/// Layouts are created once and shared by every pipeline variant, which is
/// what allows hot-swapping variants without rebinding resources.
#[derive(Debug)]
pub struct BindingSetLayout {
    pub entries: Vec<BindingLayoutEntry>,
}

impl View for BindingSetLayout {
    type V = Seq<BindingLayoutEntry>;

    open spec fn view(&self) -> Seq<BindingLayoutEntry> {
        self.entries@
    }
}

/// The texture binding-set layout: binding 0 a sampled 2D texture and
/// binding 1 a filtering sampler, both visible to the fragment stage only.
pub open spec fn spec_texture_layout() -> Seq<BindingLayoutEntry> {
    seq![
        BindingLayoutEntry {
            binding: 0,
            visibility: StageVisibility::FragmentStage,
            kind: BindingKind::SampledTexture2d,
        },
        BindingLayoutEntry {
            binding: 1,
            visibility: StageVisibility::FragmentStage,
            kind: BindingKind::FilteringSampler,
        },
    ]
}

/// The camera binding-set layout: binding 0 a uniform buffer visible to the
/// vertex stage only.
pub open spec fn spec_camera_layout() -> Seq<BindingLayoutEntry> {
    seq![
        BindingLayoutEntry {
            binding: 0,
            visibility: StageVisibility::VertexStage,
            kind: BindingKind::UniformBuffer,
        },
    ]
}

/// Build the texture binding-set layout.
pub fn texture_binding_layout() -> (r: BindingSetLayout)
    ensures
        r@ == spec_texture_layout(),
{
    let entries = vec![
        BindingLayoutEntry {
            binding: 0,
            visibility: StageVisibility::FragmentStage,
            kind: BindingKind::SampledTexture2d,
        },
        BindingLayoutEntry {
            binding: 1,
            visibility: StageVisibility::FragmentStage,
            kind: BindingKind::FilteringSampler,
        },
    ];
    let r = BindingSetLayout { entries };
    assert(r@ =~= spec_texture_layout());
    r
}

/// Build the camera binding-set layout.
pub fn camera_binding_layout() -> (r: BindingSetLayout)
    ensures
        r@ == spec_camera_layout(),
{
    let entries = vec![
        BindingLayoutEntry {
            binding: 0,
            visibility: StageVisibility::VertexStage,
            kind: BindingKind::UniformBuffer,
        },
    ];
    let r = BindingSetLayout { entries };
    assert(r@ =~= spec_camera_layout());
    r
}

/// Whether two binding-set layouts state the same slot contract.
pub fn layouts_match(a: &BindingSetLayout, b: &BindingSetLayout) -> (r: bool)
    ensures
        r == (a@ =~= b@),
{
    if a.entries.len() != b.entries.len() {
        return false;
    }
    let mut i: usize = 0;
    while i < a.entries.len()
        invariant
            i <= a@.len(),
            a@.len() == b@.len(),
            forall|j: int| 0 <= j < i ==> a@[j] == b@[j],
        decreases a@.len() - i,
    {
        if a.entries[i] != b.entries[i] {
            return false;
        }
        i = i + 1;
    }
    true
}

/// The RGBA8 pixel data and dimensions the decoder produced for the one
/// embedded texture asset: a plain value the texture upload is computed
/// from.
#[derive(Debug)]
pub struct DecodedImage {
    pub width: u32,
    pub height: u32,
    pub pixels: Vec<u8>,
}

impl DecodedImage {
    /// The pixel buffer holds exactly four bytes for each of the
    /// `width * height` pixels.
    pub open spec fn wf(&self) -> bool {
        self.pixels@.len() == 4 * self.width * self.height
    }
}

/// What the image decoder yields for a given byte blob: the dimensions and
/// RGBA8 pixels of the decoded image, or nothing when the bytes are not a
/// decodable image. Decoding depends on the bytes alone.
pub uninterp spec fn rgba_decode_of(bytes: Seq<u8>) -> Option<(u32, u32, Seq<u8>)>;

/// Relies on `image::load_from_memory` (format guessed from the bytes),
/// `DynamicImage::to_rgba8`, and the `ImageBuffer` accessors `width`,
/// `height` and `into_raw`: together they decode a byte blob into RGBA8
/// pixels and dimensions, a result that depends on the bytes alone, with
/// exactly `4 * width * height` bytes in the buffer.
#[verifier::external_body]
fn decode_rgba(bytes: &[u8]) -> (r: Option<(u32, u32, Vec<u8>)>)
    ensures
        r is Some <==> rgba_decode_of(bytes@) is Some,
        r matches Some(t) ==> rgba_decode_of(bytes@) == Some((t.0, t.1, t.2@)),
        r matches Some(t) ==> t.2@.len() == 4 * t.0 * t.1,
{
    match image::load_from_memory(bytes) {
        Ok(img) => {
            let rgba = img.to_rgba8();
            let width = rgba.width();
            let height = rgba.height();
            Some((width, height, rgba.into_raw()))
        },
        Err(_) => None,
    }
}

/// Why building the texture from the embedded asset failed.
#[derive(Clone, Copy, Debug, PartialEq, Eq, Structural)]
pub enum TextureError {
    /// The byte blob is not a decodable image.
    DecodeFailed,
    /// The decoded image is too wide for its row pitch to be expressed.
    RowPitchOverflow,
}

/// The texture resource of the binding set at slot 0: the decoded pixel
/// data, the byte pitch of one pixel row for the upload, and the binding-set
/// layout the (texture view, sampler) pair is bound under.
#[derive(Debug)]
pub struct MyTexture {
    pub image: DecodedImage,
    pub bytes_per_row: u32,
    pub bind_group_layout: BindingSetLayout,
}

impl MyTexture {
    /// A well-formed texture: coherent pixel buffer, the row pitch of four
    /// bytes per pixel, and the fixed texture binding-set layout.
    pub open spec fn wf(&self) -> bool {
        &&& self.image.wf()
        &&& self.bytes_per_row == 4 * self.image.width
        &&& self.bind_group_layout@ == spec_texture_layout()
    }

    /// Decode the embedded asset and lay out its texture binding set.
    ///
    /// Succeeds exactly when the bytes decode as an image whose row pitch
    /// (four bytes per pixel) fits; the driver then creates the GPU texture
    /// sized to the decoded dimensions, writes the pixel bytes into it and
    /// binds it with a sampler under the fixed layout.
    pub fn new(bytes: &[u8]) -> (r: Result<MyTexture, TextureError>)
        ensures
            r is Ok <==> (rgba_decode_of(bytes@) matches Some(t) && 4 * t.0 <= u32::MAX),
            r matches Ok(m) ==> {
                &&& m.wf()
                &&& rgba_decode_of(bytes@) == Some(
                    (m.image.width, m.image.height, m.image.pixels@),
                )
            },
            r == Result::<MyTexture, TextureError>::Err(TextureError::DecodeFailed) <==> rgba_decode_of(
                bytes@,
            ) is None,
            r == Result::<MyTexture, TextureError>::Err(TextureError::RowPitchOverflow) <==> (
            rgba_decode_of(bytes@) matches Some(t) && 4 * t.0 > u32::MAX),
    {
        match decode_rgba(bytes) {
            None => Err(TextureError::DecodeFailed),
            Some((width, height, pixels)) => {
                if width > u32::MAX / 4 {
                    return Err(TextureError::RowPitchOverflow);
                }
                let image = DecodedImage { width, height, pixels };
                Ok(
                    MyTexture {
                        image,
                        bytes_per_row: 4 * width,
                        bind_group_layout: texture_binding_layout(),
                    },
                )
            },
        }
    }
}

} // verus!
