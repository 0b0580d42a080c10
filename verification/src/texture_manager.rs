//! Texture loading: each host-supplied byte buffer is decoded into RGBA8
//! pixels, all of them or none, and the loaded set determines the binding
//! plan — binding 0 reserved for the one shared sampler, one texture
//! binding per image after it.

use vstd::prelude::*;

verus! {

/// What decoding a byte buffer yields: `None` when the bytes are not a
/// decodable image, otherwise the width, height and RGBA8 pixel bytes.
/// Decoding is a function of the bytes alone.
pub uninterp spec fn decoded_rgba(bytes: Seq<u8>) -> Option<(u32, u32, Seq<u8>)>;

/// One decoded image: its size in pixels and its RGBA8 pixel bytes, four
/// bytes per pixel.
#[derive(Debug)]
pub struct DecodedTexture {
    pub width: u32,
    pub height: u32,
    pub rgba: Vec<u8>,
}

impl DecodedTexture {
    /// Four RGBA bytes for every pixel.
    pub open spec fn wf(self) -> bool {
        self.rgba@.len() == 4 * (self.width as nat) * (self.height as nat)
    }
}

/// Why texture loading failed: the position of the first undecodable
/// buffer, and a description of the decoding error.
#[derive(Debug)]
pub struct TextureError {
    pub index: usize,
    pub message: String,
}

/// Relies on `image::load_from_memory`, `image::DynamicImage::to_rgba8` and
/// `GenericImageView::dimensions`: decoding is a function of the input bytes
/// alone, and the RGBA8 buffer it yields holds four bytes for each of
/// `width * height` pixels of the decoded image.
#[verifier::external_body]
fn decode_rgba(bytes: &Vec<u8>) -> (r: Result<DecodedTexture, String>)
    ensures
        r is Ok <==> decoded_rgba(bytes@) is Some,
        r matches Ok(t) ==> decoded_rgba(bytes@) == Some((t.width, t.height, t.rgba@))
            && t.wf(),
{
    let img = image::load_from_memory(bytes.as_slice())
        .map_err(|e| format!("Failed to load image: {e}"))?;
    let (width, height) = image::GenericImageView::dimensions(&img);
    Ok(DecodedTexture { width, height, rgba: img.to_rgba8().into_raw() })
}

/// Owns the decoded textures. The GPU-side views are created from these,
/// one per entry, next to one shared sampler.
#[derive(Debug)]
pub struct TextureManager {
    pub textures: Vec<DecodedTexture>,
}

impl TextureManager {
    /// Every held texture decoded properly.
    pub open spec fn wf(self) -> bool {
        forall|i: int| 0 <= i < self.textures@.len() ==> (#[trigger] self.textures@[i]).wf()
    }

    /// Decode every supplied byte buffer into RGBA8 pixels. Succeeds exactly
    /// when every buffer decodes, with one texture per buffer, in order; the
    /// first undecodable buffer fails the whole batch, and no partial set is
    /// returned.
    pub fn new(textures_data: &Vec<Vec<u8>>) -> (r: Result<TextureManager, TextureError>)
        ensures
            r is Ok <==> (forall|i: int|
                0 <= i < textures_data@.len() ==> (#[trigger] decoded_rgba(
                    textures_data@[i]@,
                )) is Some),
            r matches Ok(tm) ==> {
                &&& tm.textures@.len() == textures_data@.len()
                &&& forall|i: int|
                    0 <= i < textures_data@.len() ==> #[trigger] decoded_rgba(textures_data@[i]@)
                        == Some(
                        (tm.textures@[i].width, tm.textures@[i].height, tm.textures@[i].rgba@),
                    )
                &&& tm.wf()
            },
            r matches Err(e) ==> {
                &&& e.index < textures_data@.len()
                &&& decoded_rgba(textures_data@[e.index as int]@) is None
                &&& forall|j: int|
                    0 <= j < e.index ==> (#[trigger] decoded_rgba(textures_data@[j]@)) is Some
            },
    {
        let mut textures: Vec<DecodedTexture> = Vec::new();
        let mut i: usize = 0;
        while i < textures_data.len()
            invariant
                0 <= i <= textures_data@.len(),
                textures@.len() == i,
                forall|j: int|
                    0 <= j < i ==> #[trigger] decoded_rgba(textures_data@[j]@) == Some(
                        (textures@[j].width, textures@[j].height, textures@[j].rgba@),
                    ),
                forall|j: int| 0 <= j < i ==> (#[trigger] textures@[j]).wf(),
            decreases textures_data@.len() - i,
        {
            match decode_rgba(&textures_data[i]) {
                Ok(texture) => {
                    textures.push(texture);
                },
                Err(message) => {
                    return Err(TextureError { index: i, message });
                },
            }
            i = i + 1;
        }
        Ok(TextureManager { textures })
    }
}

/// What stands at one binding slot of the texture bind group.
#[derive(Clone, Copy, Debug, PartialEq, Eq, Structural)]
pub enum BindingKind {
    Sampler,
    Texture2d,
}

/// One slot of the texture bind group: its binding index and what is bound
/// there.
#[derive(Clone, Copy, Debug, PartialEq, Eq, Structural)]
pub struct BindingEntry {
    pub binding: u32,
    pub kind: BindingKind,
}

/// The binding plan for a set of `texture_count` textures: empty when there
/// are none, otherwise the shared sampler at binding 0 followed by one
/// texture per image at bindings 1 through `texture_count`. A sampler never
/// stands anywhere but binding 0.
pub fn texture_binding_plan(texture_count: usize) -> (plan: Vec<BindingEntry>)
    requires
        texture_count < u32::MAX,
    ensures
        texture_count == 0 ==> plan@.len() == 0,
        texture_count > 0 ==> {
            &&& plan@.len() == texture_count + 1
            &&& plan@[0] == (BindingEntry { binding: 0, kind: BindingKind::Sampler })
            &&& forall|i: int|
                1 <= i < plan@.len() ==> #[trigger] plan@[i] == (BindingEntry {
                    binding: i as u32,
                    kind: BindingKind::Texture2d,
                })
        },
        forall|i: int|
            0 <= i < plan@.len() && (#[trigger] plan@[i]).kind is Sampler ==> plan@[i].binding
                == 0,
{
    let mut plan: Vec<BindingEntry> = Vec::new();
    if texture_count == 0 {
        return plan;
    }
    plan.push(BindingEntry { binding: 0, kind: BindingKind::Sampler });
    let mut i: usize = 0;
    while i < texture_count
        invariant
            texture_count < u32::MAX,
            0 <= i <= texture_count,
            plan@.len() == i + 1,
            plan@[0] == (BindingEntry { binding: 0, kind: BindingKind::Sampler }),
            forall|j: int|
                1 <= j < plan@.len() ==> #[trigger] plan@[j] == (BindingEntry {
                    binding: j as u32,
                    kind: BindingKind::Texture2d,
                }),
        decreases texture_count - i,
    {
        plan.push(BindingEntry { binding: (i as u32) + 1, kind: BindingKind::Texture2d });
        i = i + 1;
    }
    plan
}

} // verus!
