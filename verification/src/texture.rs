//! Textures: which pixel format a decoded image is uploaded with, what a
//! texture records once it is on the graphics card, and sets of textures.

use vstd::prelude::*;

verus! {

/// Pixel format of single-channel images.
pub const RED: u32 = 0x1903;

/// Pixel format of two-channel images.
pub const RG: u32 = 0x8227;

/// Pixel format of three-channel images.
pub const RGB: u32 = 0x1907;

/// Pixel format of four-channel images.
pub const RGBA: u32 = 0x1908;

/// How the pixels of a decoded image are stored.
#[derive(Clone, Copy, Debug, PartialEq, Eq, Structural)]
pub enum PixelLayout {
    /// One byte of luminance.
    Luma8,
    /// One byte of luminance and one of alpha.
    LumaA8,
    /// One byte each of red, green and blue.
    Rgb8,
    /// One byte each of red, green, blue and alpha.
    Rgba8,
    /// Any layout with wider channels.
    Other,
}

/// The pixel format an image of the layout is uploaded with; 0 where the
/// layout has none.
pub open spec fn format_of(layout: PixelLayout) -> u32 {
    match layout {
        PixelLayout::Luma8 => RED,
        PixelLayout::LumaA8 => RG,
        PixelLayout::Rgb8 => RGB,
        PixelLayout::Rgba8 => RGBA,
        PixelLayout::Other => 0,
    }
}

/// The value a 32-bit size has when its bit pattern is read as signed.
pub open spec fn as_signed(size: u32) -> int {
    if size <= i32::MAX {
        size as int
    } else {
        size - 0x1_0000_0000
    }
}

/// Reads the bit pattern of a 32-bit size as signed, which is how the
/// graphics interface takes sizes.
pub fn signed_size(size: u32) -> (signed: i32)
    ensures
        signed == as_signed(size),
{
    if size <= 0x7fff_ffff {
        size as i32
    } else {
        (size as i64 - 0x1_0000_0000) as i32
    }
}

/// The arguments of one two-dimensional image upload.
#[derive(Clone, Copy, Debug, PartialEq, Eq, Structural)]
pub struct TextureUpload {
    pub internal_format: i32,
    pub width: i32,
    pub height: i32,
    pub format: u32,
}

impl TextureUpload {
    /// Infers the upload of an image from its layout and its size in pixels.
    /// The image is stored on the card in the format it is handed over in.
    pub fn new(layout: PixelLayout, width: u32, height: u32) -> (upload: TextureUpload)
        ensures
            upload.format == format_of(layout),
            upload.internal_format == format_of(layout),
            upload.width == as_signed(width),
            upload.height == as_signed(height),
    {
        let format: u32 = match layout {
            PixelLayout::Luma8 => RED,
            PixelLayout::LumaA8 => RG,
            PixelLayout::Rgb8 => RGB,
            PixelLayout::Rgba8 => RGBA,
            PixelLayout::Other => 0,
        };
        TextureUpload {
            internal_format: format as i32,
            width: signed_size(width),
            height: signed_size(height),
            format,
        }
    }
}

/// Whether the characters can name a shader input: none of them is NUL.
pub open spec fn is_uniform_name(name: Seq<char>) -> bool {
    forall|i: int| 0 <= i < name.len() ==> name[i] != '\0'
}

/// Tests a name before a texture is recorded under it: tells whether it can
/// name a shader input.
pub fn check_uniform_name(name: &str) -> (ok: bool)
    ensures
        ok == is_uniform_name(name@),
{
    let n: usize = name.unicode_len();
    let mut i: usize = 0;
    while i < n
        invariant
            i <= n,
            n == name@.len(),
            forall|j: int| 0 <= j < i ==> name@[j] != '\0',
        decreases n - i,
    {
        if name.get_char(i) == '\0' {
            return false;
        }
        i = i + 1;
    }
    true
}

/// A texture on the graphics card and the sampler it is bound to.
#[derive(Hash, Eq, PartialEq, Debug, Clone)]
pub struct Texture {
    pub id: u32,
    pub width: u32,
    pub height: u32,
    pub nr_channels: i32,
    pub name: String,
}

/// What a texture holds, its name as characters.
pub struct TextureView {
    pub id: u32,
    pub width: u32,
    pub height: u32,
    pub nr_channels: i32,
    pub name: Seq<char>,
}

impl View for Texture {
    type V = TextureView;

    open spec fn view(&self) -> TextureView {
        TextureView {
            id: self.id,
            width: self.width,
            height: self.height,
            nr_channels: self.nr_channels,
            name: self.name@,
        }
    }
}

impl Texture {
    /// Records an uploaded texture under the name of its sampler.  The
    /// channel count is left at 0: it is not derived from the image.  A name
    /// that cannot name a shader input is not taken.
    pub fn new(id: u32, width: u32, height: u32, name: &str) -> (texture: Texture)
        requires
            is_uniform_name(name@),
        ensures
            texture@ == (TextureView { id, width, height, nr_channels: 0, name: name@ }),
    {
        Texture { id, width, height, nr_channels: 0, name: name.to_owned() }
    }

    /// Whether two textures hold the same values.
    pub fn same_as(&self, other: &Texture) -> (same: bool)
        ensures
            same == (self@ == other@),
    {
        let same: bool = self.id == other.id && self.width == other.width && self.height
            == other.height && self.nr_channels == other.nr_channels && self.name == other.name;
        proof {
            if self.name@ == other.name@ {
                assert(self.name@ =~= other.name@);
            }
        }
        same
    }
}

/// Whether no texture occurs twice.
pub open spec fn no_repeats(textures: Seq<TextureView>) -> bool {
    forall|i: int, j: int| 0 <= i < j < textures.len() ==> textures[i] != textures[j]
}

/// A set of textures that keeps them in the order they were first inserted.
pub struct TextureSet {
    items: Vec<Texture>,
}

impl View for TextureSet {
    type V = Seq<TextureView>;

    closed spec fn view(&self) -> Seq<TextureView> {
        self.items@.map_values(|texture: Texture| texture@)
    }
}

impl TextureSet {
    /// Whether the set is well formed: no texture occurs twice.
    pub open spec fn wf(&self) -> bool {
        no_repeats(self@)
    }

    /// The set without textures.
    pub fn new() -> (set: TextureSet)
        ensures
            set.wf(),
            set@ == Seq::<TextureView>::empty(),
    {
        let set = TextureSet { items: Vec::new() };
        assert(set@ =~= Seq::<TextureView>::empty());
        set
    }

    /// Number of textures.
    pub fn len(&self) -> (count: usize)
        ensures
            count == self@.len(),
    {
        self.items.len()
    }

    /// The texture that was inserted as the `index`-th.
    pub fn get(&self, index: usize) -> (texture: &Texture)
        requires
            index < self@.len(),
        ensures
            texture@ == self@[index as int],
    {
        &self.items[index]
    }

    /// Whether the set holds a texture with the same values.
    pub fn contains(&self, texture: &Texture) -> (found: bool)
        ensures
            found == self@.contains(texture@),
    {
        let mut i: usize = 0;
        while i < self.items.len()
            invariant
                i <= self.items.len(),
                forall|j: int| 0 <= j < i ==> self@[j] != texture@,
                self@.len() == self.items.len(),
            decreases self.items.len() - i,
        {
            if self.items[i].same_as(texture) {
                assert(self@[i as int] == texture@);
                return true;
            }
            i = i + 1;
        }
        false
    }

    /// Adds a texture unless the set already holds one with the same values,
    /// and tells whether it was added.
    pub fn insert(&mut self, texture: Texture) -> (added: bool)
        requires
            old(self).wf(),
        ensures
            final(self).wf(),
            added == !old(self)@.contains(texture@),
            final(self)@ == if added {
                old(self)@.push(texture@)
            } else {
                old(self)@
            },
    {
        if self.contains(&texture) {
            return false;
        }
        let ghost before = self@;
        self.items.push(texture);
        assert(self@ =~= before.push(texture@));
        true
    }
}

} // verus!
