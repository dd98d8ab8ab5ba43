//! Pixel buffers: the straight RGBA image that the library hands out, and the
//! conversion of a native 32-bit bitmap dump into it.

use vstd::prelude::*;

verus! {

/// What an image is: its size and its bytes, four per pixel in the order
/// red, green, blue, alpha, row after row from the top.
pub struct Pixels {
    pub width: nat,
    pub height: nat,
    pub data: Seq<u8>,
}

impl Pixels {
    /// The buffer holds exactly four bytes for each pixel.
    pub open spec fn well_sized(self) -> bool {
        self.data.len() == 4 * self.width * self.height
    }

    /// The four channels of the pixel in column `x` of row `y`.
    pub open spec fn pixel(self, x: int, y: int) -> [u8; 4] {
        let at = 4 * (y * self.width + x);
        [self.data[at], self.data[at + 1], self.data[at + 2], self.data[at + 3]]
    }
}

/// An image of 8-bit RGBA pixels, row-major, top row first.
#[derive(Debug)]
pub struct RgbaImage {
    width: u32,
    height: u32,
    data: Vec<u8>,
}

impl View for RgbaImage {
    type V = Pixels;

    closed spec fn view(&self) -> Pixels {
        Pixels { width: self.width as nat, height: self.height as nat, data: self.data@ }
    }
}

impl RgbaImage {
    #[verifier::type_invariant]
    spec fn sized(self) -> bool {
        self.data@.len() == 4 * self.width * self.height
    }

    /// An image over `data`, if `data` holds exactly `4 * width * height` bytes.
    pub fn from_raw(width: u32, height: u32, data: Vec<u8>) -> (r: Option<RgbaImage>)
        ensures
            r is Some <==> data@.len() == 4 * width * height,
            r matches Some(image) ==> image@ == (Pixels {
                width: width as nat,
                height: height as nat,
                data: data@,
            }),
    {
        assert(4 * width * height <= 4 * 0xffff_ffff * 0xffff_ffff) by (nonlinear_arith)
            requires
                width <= 0xffff_ffff,
                height <= 0xffff_ffff,
        ;
        let expected: u128 = 4 * (width as u128) * (height as u128);
        if data.len() as u128 == expected {
            Some(RgbaImage { width, height, data })
        } else {
            None
        }
    }

    /// The number of pixels in a row.
    pub fn width(&self) -> (r: u32)
        ensures
            r == self@.width,
    {
        self.width
    }

    /// The number of rows.
    pub fn height(&self) -> (r: u32)
        ensures
            r == self@.height,
    {
        self.height
    }

    /// The bytes of the image.
    pub fn as_raw(&self) -> (r: &Vec<u8>)
        ensures
            r@ == self@.data,
            self@.well_sized(),
    {
        proof {
            use_type_invariant(self);
        }
        &self.data
    }

    /// The bytes of the image, which is given up.
    pub fn into_raw(self) -> (r: Vec<u8>)
        ensures
            r@ == self@.data,
            self@.well_sized(),
    {
        proof {
            use_type_invariant(&self);
        }
        self.data
    }

    /// The pixel in column `x` of row `y`, or nothing outside the image.
    pub fn get_pixel(&self, x: u32, y: u32) -> (r: Option<[u8; 4]>)
        ensures
            r is Some <==> x < self@.width && y < self@.height,
            r matches Some(p) ==> p == self@.pixel(x as int, y as int),
    {
        proof {
            use_type_invariant(self);
        }
        if x >= self.width || y >= self.height {
            return None;
        }
        assert({
            let cell = (y as int) * (self.width as int) + (x as int);
            &&& 0 <= (y as int) * (self.width as int) <= cell
            &&& 4 * cell + 3 < 4 * self.width * self.height
        }) by (nonlinear_arith)
            requires
                0 <= x < self.width,
                0 <= y < self.height,
        ;
        let len: usize = self.data.len();
        assert(len == 4 * self.width * self.height);
        let row: usize = (y as usize) * (self.width as usize);
        let at: usize = 4 * (row + x as usize);
        Some([self.data[at], self.data[at + 1], self.data[at + 2], self.data[at + 3]])
    }
}

/// A native colour bitmap as the system dumps it on request: the size it
/// reports, and one 32-bit word per pixel, row after row from the top.
#[derive(Debug)]
pub struct NativeBitmap {
    pub width: i32,
    pub height: i32,
    pub pixels: Vec<u32>,
}

/// Why a native bitmap cannot become an image.
#[derive(Clone, Copy, Debug, PartialEq, Eq, Structural)]
pub enum ConversionError {
    /// The width or the height is zero or negative.
    EmptyBitmap,
    /// A buffer of four bytes per pixel cannot be addressed.
    TooLarge,
    /// The dump does not hold one word per pixel.
    SizeMismatch,
}

/// The red channel of a native pixel word, whose bytes from the lowest up
/// are blue, green, red, alpha.
pub open spec fn red(word: u32) -> u8 {
    ((word / 0x1_0000) % 0x100) as u8
}

/// The green channel of a native pixel word.
pub open spec fn green(word: u32) -> u8 {
    ((word / 0x100) % 0x100) as u8
}

/// The blue channel of a native pixel word.
pub open spec fn blue(word: u32) -> u8 {
    (word % 0x100) as u8
}

/// The alpha channel of a native pixel word.
pub open spec fn alpha(word: u32) -> u8 {
    (word / 0x100_0000) as u8
}

/// Byte `k` of the straight RGBA form of a native pixel word.
pub open spec fn channel(word: u32, k: int) -> u8 {
    if k == 0 {
        red(word)
    } else if k == 1 {
        green(word)
    } else if k == 2 {
        blue(word)
    } else {
        alpha(word)
    }
}

/// The straight RGBA bytes of a run of native pixel words.
pub open spec fn rgba_bytes(words: Seq<u32>) -> Seq<u8> {
    Seq::new(4 * words.len(), |i: int| channel(words[i / 4], i % 4))
}

/// The reason, if there is one, for which `bitmap` is refused.
pub open spec fn conversion_error(bitmap: NativeBitmap) -> Option<ConversionError> {
    if bitmap.width <= 0 || bitmap.height <= 0 {
        Some(ConversionError::EmptyBitmap)
    } else if 4 * bitmap.width * bitmap.height > usize::MAX {
        Some(ConversionError::TooLarge)
    } else if bitmap.pixels@.len() != bitmap.width * bitmap.height {
        Some(ConversionError::SizeMismatch)
    } else {
        None
    }
}

/// The image that an accepted `bitmap` becomes.
pub open spec fn converted(bitmap: NativeBitmap) -> Pixels {
    Pixels {
        width: bitmap.width as nat,
        height: bitmap.height as nat,
        data: rgba_bytes(bitmap.pixels@),
    }
}

/// Converts a native bitmap dump into a straight RGBA image of the same
/// size, pixel for pixel, with the channels reordered.
pub fn icon_to_image(bitmap: &NativeBitmap) -> (r: Result<RgbaImage, ConversionError>)
    ensures
        match r {
            Ok(image) => conversion_error(*bitmap) is None && image@ == converted(*bitmap),
            Err(e) => conversion_error(*bitmap) == Some(e),
        },
{
    if bitmap.width <= 0 || bitmap.height <= 0 {
        return Err(ConversionError::EmptyBitmap);
    }
    let width: u32 = bitmap.width as u32;
    let height: u32 = bitmap.height as u32;
    assert({
        &&& 0 <= width * height <= 0x7fff_ffff * 0x7fff_ffff
        &&& 4 * bitmap.width * bitmap.height == 4 * (width * height)
        &&& bitmap.width * bitmap.height == width * height
        &&& 4 * width * height == 4 * (width * height)
    }) by (nonlinear_arith)
        requires
            0 < width <= 0x7fff_ffff,
            0 < height <= 0x7fff_ffff,
            width == bitmap.width,
            height == bitmap.height,
    ;
    let cells: u64 = (width as u64) * (height as u64);
    if 4 * cells > usize::MAX as u64 {
        return Err(ConversionError::TooLarge);
    }
    let count: usize = bitmap.pixels.len();
    if count as u64 != cells {
        return Err(ConversionError::SizeMismatch);
    }
    let mut data: Vec<u8> = Vec::new();
    let mut i: usize = 0;
    while i < count
        invariant
            i <= count,
            count == bitmap.pixels@.len(),
            4 * count <= usize::MAX,
            data@ == rgba_bytes(bitmap.pixels@.take(i as int)),
        decreases count - i,
    {
        let word: u32 = bitmap.pixels[i];
        let r: u8 = ((word / 0x1_0000) % 0x100) as u8;
        let g: u8 = ((word / 0x100) % 0x100) as u8;
        let b: u8 = (word % 0x100) as u8;
        let a: u8 = (word / 0x100_0000) as u8;
        data.push(r);
        data.push(g);
        data.push(b);
        data.push(a);
        i += 1;
        assert(data@ =~= rgba_bytes(bitmap.pixels@.take(i as int)));
    }
    assert(bitmap.pixels@.take(count as int) =~= bitmap.pixels@);
    let made = RgbaImage::from_raw(width, height, data);
    match made {
        Some(image) => Ok(image),
        None => Err(ConversionError::SizeMismatch),
    }
}

/// Channel order and row orientation: the pixel in column `x` of row `y` of
/// the converted image is the native word at index `y * width + x`, with
/// its bytes reordered to red, green, blue, alpha. Nothing is flipped.
pub proof fn converted_pixel(bitmap: NativeBitmap, x: int, y: int)
    requires
        conversion_error(bitmap) is None,
        0 <= x < bitmap.width,
        0 <= y < bitmap.height,
    ensures
        0 <= y * bitmap.width + x < bitmap.pixels@.len(),
        converted(bitmap).well_sized(),
        ({
            let word = bitmap.pixels@[y * bitmap.width + x];
            converted(bitmap).pixel(x, y) == [red(word), green(word), blue(word), alpha(word)]
        }),
{
    let w = bitmap.width as int;
    let h = bitmap.height as int;
    assert(0 <= y * w <= y * w + x < w * h) by (nonlinear_arith)
        requires
            0 <= x < w,
            0 <= y < h,
    ;
    assert(4 * (w * h) == 4 * w * h) by (nonlinear_arith);
    let cell = y * w + x;
    let p = converted(bitmap).pixel(x, y);
    let word = bitmap.pixels@[cell];
    assert(p =~= [red(word), green(word), blue(word), alpha(word)]);
}

} // verus!
