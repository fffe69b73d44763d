//! Images by address, and the placeholder that stands in for an image that
//! cannot be had.
//!
//! The store does not look into the images that it holds, so it holds
//! images of any type; decoding and downloading are the host's. The
//! placeholder is drawn here, pixel by pixel, on a canvas of plain values.

use crate::text::text_eq;
use vstd::prelude::*;

verus! {

/// The number of images that the store holds at most.
pub const IMAGE_CACHE_SIZE: usize = 50;

/// An image with its address.
pub struct CachedImage<T> {
    pub url: String,
    pub image: T,
}

/// A store of images by address. When it is full, it is emptied before the
/// next image is taken in.
pub struct ImageCache<T> {
    pub cache: Vec<CachedImage<T>>,
    pub max_size: usize,
}

/// The views of a list of images: pairs of address and image.
pub open spec fn images_view<T>(images: Seq<CachedImage<T>>) -> Seq<(Seq<char>, T)> {
    Seq::new(images.len(), |i: int| (images[i].url@, images[i].image))
}

/// The place of the first image with the given address, or the length of
/// the list where there is none.
pub open spec fn image_place<T>(images: Seq<(Seq<char>, T)>, url: Seq<char>) -> int
    decreases images.len(),
{
    if images.len() == 0 {
        0
    } else if images[0].0 == url {
        0
    } else {
        1 + image_place(images.skip(1), url)
    }
}

/// The image held for an address, if any.
pub open spec fn image_for<T>(images: Seq<(Seq<char>, T)>, url: Seq<char>) -> Option<T> {
    if image_place(images, url) < images.len() {
        Some(images[image_place(images, url)].1)
    } else {
        None
    }
}

/// The list after an image is taken in by a store of the given size: a full
/// list is emptied first; then the image replaces the one held for its
/// address, or is added at the end.
pub open spec fn with_image<T>(
    images: Seq<(Seq<char>, T)>,
    max_size: usize,
    url: Seq<char>,
    image: T,
) -> Seq<(Seq<char>, T)> {
    if images.len() >= max_size {
        seq![(url, image)]
    } else if image_place(images, url) < images.len() {
        images.update(image_place(images, url), (url, image))
    } else {
        images.push((url, image))
    }
}

impl<T> ImageCache<T> {
    /// The images held, as pairs of address and image.
    pub open spec fn images(&self) -> Seq<(Seq<char>, T)> {
        images_view(self.cache@)
    }

    /// An empty store for [`IMAGE_CACHE_SIZE`] images.
    pub fn new() -> (store: ImageCache<T>)
        ensures
            store.images() == Seq::<(Seq<char>, T)>::empty(),
            store.max_size == IMAGE_CACHE_SIZE,
    {
        let store = ImageCache { cache: Vec::new(), max_size: IMAGE_CACHE_SIZE };
        assert(store.images() =~= Seq::<(Seq<char>, T)>::empty());
        store
    }

    fn find(&self, url: &str) -> (place: usize)
        ensures
            place == image_place(self.images(), url@),
            place <= self.cache@.len(),
    {
        let ghost all = self.images();
        let mut i: usize = 0;
        assert(all.skip(0) =~= all);
        while i < self.cache.len()
            invariant
                i <= self.cache@.len(),
                all == images_view(self.cache@),
                image_place(all, url@) == i + image_place(all.skip(i as int), url@),
            decreases self.cache@.len() - i,
        {
            assert(all.skip(i as int).skip(1) =~= all.skip(i + 1));
            assert(all.skip(i as int)[0] == all[i as int]);
            if text_eq(self.cache[i].url.as_str(), url) {
                return i;
            }
            i += 1;
        }
        i
    }

    /// The image held for an address, if any.
    pub fn get(&self, url: &str) -> (image: Option<&T>)
        ensures
            match image {
                Some(found) => image_for(self.images(), url@) == Some(*found),
                None => image_for(self.images(), url@) is None,
            },
    {
        let place = self.find(url);
        if place < self.cache.len() {
            Some(&self.cache[place].image)
        } else {
            None
        }
    }

    /// Takes an image in under its address. A full store is emptied first.
    pub fn insert(&mut self, url: String, image: T)
        ensures
            final(self).images() == with_image(old(self).images(), old(self).max_size, url@, image),
            final(self).max_size == old(self).max_size,
    {
        if self.cache.len() >= self.max_size {
            self.cache.clear();
            self.cache.push(CachedImage { url, image });
            assert(self.images() =~= seq![(url@, image)]);
        } else {
            let place = self.find(url.as_str());
            let ghost before = self.images();
            if place < self.cache.len() {
                self.cache[place] = CachedImage { url, image };
            } else {
                self.cache.push(CachedImage { url, image });
            }
            assert(self.images() =~= with_image(before, self.max_size, url@, image));
        }
    }

    /// How many images are held.
    pub fn len(&self) -> (count: usize)
        ensures
            count == self.images().len(),
    {
        self.cache.len()
    }

    /// Empties the store.
    pub fn clear(&mut self)
        ensures
            final(self).images() == Seq::<(Seq<char>, T)>::empty(),
            final(self).max_size == old(self).max_size,
    {
        self.cache.clear();
        assert(self.images() =~= Seq::<(Seq<char>, T)>::empty());
    }
}

/// A colour with its opacity.
#[derive(Debug, Clone, Copy, PartialEq, Eq, Structural)]
pub struct Pixel {
    pub red: u8,
    pub green: u8,
    pub blue: u8,
    pub alpha: u8,
}

/// The red of the logo.
pub open spec fn logo_red() -> Pixel {
    Pixel { red: 234, green: 68, blue: 57, alpha: 255 }
}

/// White.
pub open spec fn white() -> Pixel {
    Pixel { red: 255, green: 255, blue: 255, alpha: 255 }
}

/// The width of the placeholder in pixels.
pub const LOGO_WIDTH: u32 = 240;

/// The height of the placeholder in pixels.
pub const LOGO_HEIGHT: u32 = 135;

/// A picture as rows of pixels.
pub struct Canvas {
    pub rows: Vec<Vec<Pixel>>,
}

/// Whether a place lies in the rectangle with the given corner and size.
pub open spec fn in_rect(px: int, py: int, x: int, y: int, width: int, height: int) -> bool {
    x <= px < x + width && y <= py < y + height
}

/// Whether a place of the placeholder lies in one of its three blocks:
/// upright rectangles of 15 by 30 pixels, set side by side about the
/// centre.
pub open spec fn in_logo_block(px: int, py: int) -> bool {
    in_rect(px, py, 80, 52, 15, 30) || in_rect(px, py, 100, 52, 15, 30) || in_rect(
        px,
        py,
        125,
        52,
        15,
        30,
    )
}

impl Canvas {
    /// Whether every row has `width` pixels and there are `height` rows.
    pub open spec fn has_size(&self, width: int, height: int) -> bool {
        &&& self.rows@.len() == height
        &&& forall|y: int| 0 <= y < height ==> (#[trigger] self.rows@[y])@.len() == width
    }

    /// The pixel in column `x` of row `y`.
    pub open spec fn at(&self, x: int, y: int) -> Pixel {
        self.rows@[y]@[x]
    }

    /// A canvas of one colour.
    pub fn filled(width: u32, height: u32, colour: Pixel) -> (canvas: Canvas)
        ensures
            canvas.has_size(width as int, height as int),
            forall|x: int, y: int| 0 <= x < width && 0 <= y < height ==> canvas.at(x, y) == colour,
    {
        let mut rows: Vec<Vec<Pixel>> = Vec::new();
        let mut y: u32 = 0;
        while y < height
            invariant
                y <= height,
                rows@.len() == y,
                forall|j: int| 0 <= j < y ==> (#[trigger] rows@[j])@.len() == width,
                forall|i: int, j: int| 0 <= i < width && 0 <= j < y ==> rows@[j]@[i] == colour,
            decreases height - y,
        {
            let mut row: Vec<Pixel> = Vec::new();
            let mut x: u32 = 0;
            while x < width
                invariant
                    x <= width,
                    row@.len() == x,
                    forall|i: int| 0 <= i < x ==> row@[i] == colour,
                decreases width - x,
            {
                row.push(colour);
                x += 1;
            }
            rows.push(row);
            y += 1;
        }
        Canvas { rows }
    }

    /// The number of rows.
    pub fn height(&self) -> (height: usize)
        ensures
            height == self.rows@.len(),
    {
        self.rows.len()
    }

    /// The pixel in column `x` of row `y`, if there is one.
    pub fn pixel(&self, x: usize, y: usize) -> (pixel: Option<Pixel>)
        ensures
            match pixel {
                Some(p) => y < self.rows@.len() && x < self.rows@[y as int]@.len() && p == self.at(
                    x as int,
                    y as int,
                ),
                None => y >= self.rows@.len() || x >= self.rows@[y as int]@.len(),
            },
    {
        if y < self.rows.len() {
            if x < self.rows[y].len() {
                return Some(self.rows[y][x]);
            }
        }
        None
    }

    /// Fills a rectangle with one colour. What of the rectangle lies
    /// outside the canvas is left out.
    pub fn draw_rect(&mut self, x: u32, y: u32, width: u32, height: u32, colour: Pixel)
        ensures
            final(self).rows@.len() == old(self).rows@.len(),
            forall|j: int|
                0 <= j < old(self).rows@.len() ==> (#[trigger] final(self).rows@[j])@.len()
                    == old(self).rows@[j]@.len(),
            forall|i: int, j: int|
                0 <= j < old(self).rows@.len() && 0 <= i < old(self).rows@[j]@.len()
                    ==> #[trigger] final(self).at(i, j) == if in_rect(
                    i,
                    j,
                    x as int,
                    y as int,
                    width as int,
                    height as int,
                ) {
                    colour
                } else {
                    old(self).at(i, j)
                },
    {
        let mut rows: Vec<Vec<Pixel>> = Vec::new();
        let mut j: usize = 0;
        while j < self.rows.len()
            invariant
                j <= self.rows@.len(),
                rows@.len() == j,
                forall|b: int| 0 <= b < j ==> (#[trigger] rows@[b])@.len() == self.rows@[b]@.len(),
                forall|a: int, b: int|
                    0 <= b < j && 0 <= a < self.rows@[b]@.len() ==> rows@[b]@[a] == if in_rect(
                        a,
                        b,
                        x as int,
                        y as int,
                        width as int,
                        height as int,
                    ) {
                        colour
                    } else {
                        self.rows@[b]@[a]
                    },
            decreases self.rows@.len() - j,
        {
            let in_rows = j as u64 >= y as u64 && (j as u64) < y as u64 + height as u64;
            let mut row: Vec<Pixel> = Vec::new();
            let mut i: usize = 0;
            while i < self.rows[j].len()
                invariant
                    j < self.rows@.len(),
                    i <= self.rows@[j as int]@.len(),
                    row@.len() == i,
                    in_rows == (y <= j < y + height),
                    forall|a: int|
                        0 <= a < i ==> row@[a] == if in_rect(
                            a,
                            j as int,
                            x as int,
                            y as int,
                            width as int,
                            height as int,
                        ) {
                            colour
                        } else {
                            self.rows@[j as int]@[a]
                        },
                decreases self.rows@[j as int]@.len() - i,
            {
                let inside = in_rows && i as u64 >= x as u64 && (i as u64) < x as u64
                    + width as u64;
                if inside {
                    row.push(colour);
                } else {
                    row.push(self.rows[j][i]);
                }
                i += 1;
            }
            rows.push(row);
            j += 1;
        }
        self.rows = rows;
    }
}

/// Draws the placeholder: a red ground of [`LOGO_WIDTH`] by
/// [`LOGO_HEIGHT`] pixels with three white blocks.
pub fn create_bbc_logo() -> (logo: Canvas)
    ensures
        logo.has_size(LOGO_WIDTH as int, LOGO_HEIGHT as int),
        forall|x: int, y: int|
            0 <= x < LOGO_WIDTH && 0 <= y < LOGO_HEIGHT ==> logo.at(x, y) == if in_logo_block(
                x,
                y,
            ) {
                white()
            } else {
                logo_red()
            },
{
    let width: u32 = LOGO_WIDTH;
    let height: u32 = LOGO_HEIGHT;
    let red = Pixel { red: 234, green: 68, blue: 57, alpha: 255 };
    let white = Pixel { red: 255, green: 255, blue: 255, alpha: 255 };
    let mut logo = Canvas::filled(width, height, red);

    let center_x: u32 = width / 2;
    let center_y: u32 = height / 2;
    let block_width: u32 = 15;
    let block_height: u32 = 30;
    let spacing: u32 = 5;
    let top: u32 = center_y - block_height / 2;

    let left: u32 = center_x - block_width * 2 - spacing * 2;
    logo.draw_rect(left, top, block_width, block_height, white);
    let middle: u32 = center_x - block_width - spacing;
    logo.draw_rect(middle, top, block_width, block_height, white);
    let right: u32 = center_x + spacing;
    logo.draw_rect(right, top, block_width, block_height, white);
    logo
}

} // verus!
