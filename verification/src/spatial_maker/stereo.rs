//! Rendering the right view of a stereo pair: pixels move left by their
//! disparity, and the holes that they leave are filled from their
//! surroundings.

use vstd::prelude::*;

verus! {

/// One pixel: red, green and blue.
#[derive(Clone, Copy, Debug, PartialEq, Eq, Structural)]
pub struct Rgb {
    pub r: u8,
    pub g: u8,
    pub b: u8,
}

/// The colour of a pixel of the right view that no pixel of the source was
/// moved to: a dark grey.
pub open spec fn background() -> Rgb {
    Rgb { r: 64, g: 64, b: 64 }
}

/// How far around a hole a pixel to fill it with is looked for.
pub const SEARCH_RADIUS: i64 = 20;

/// A picture as rows of pixels, the top row first.
pub struct PixelGrid {
    pub width: usize,
    pub height: usize,
    pub pixels: Vec<Rgb>,
}

impl PixelGrid {
    /// The grid holds one pixel for each place.
    pub open spec fn wf(&self) -> bool {
        self.pixels@.len() == self.width * self.height
    }

    /// Whether the place `(x, y)` lies in the picture.
    pub open spec fn contains(&self, x: int, y: int) -> bool {
        0 <= x < self.width && 0 <= y < self.height
    }

    /// The pixel at `(x, y)`.
    pub open spec fn at(&self, x: int, y: int) -> Rgb
        recommends
            self.wf(),
            self.contains(x, y),
    {
        self.pixels@[y * self.width + x]
    }

    /// Whether the pixel at `(x, y)` is a hole: it has the colour of the
    /// background.
    pub open spec fn is_hole(&self, x: int, y: int) -> bool {
        self.at(x, y) == background()
    }

    /// Whether the place at the offset `(dx, dy)` from `(cx, cy)` can fill a
    /// hole at `(cx, cy)`: it lies in the picture, within the search radius
    /// but not at the centre, and is no hole itself.
    pub open spec fn is_candidate(&self, cx: int, cy: int, dx: int, dy: int) -> bool {
        &&& 1 <= ring(dx, dy) <= SEARCH_RADIUS
        &&& self.contains(cx + dx, cy + dy)
        &&& !self.is_hole(cx + dx, cy + dy)
    }

    /// Whether the offset `(dx, dy)` is the candidate that is looked at
    /// first: no other candidate comes before it.
    pub open spec fn is_nearest(&self, cx: int, cy: int, dx: int, dy: int) -> bool {
        &&& self.is_candidate(cx, cy, dx, dy)
        &&& forall|ex: int, ey: int| #[trigger]
            self.is_candidate(cx, cy, ex, ey) ==> !comes_before(ex, ey, dx, dy)
    }

    /// Whether `pixel` is what a hole at `(cx, cy)` is filled with: the
    /// first candidate, where there is one.
    pub open spec fn fills(&self, cx: int, cy: int, pixel: Option<Rgb>) -> bool {
        match pixel {
            Some(p) => exists|dx: int, dy: int| #[trigger]
                self.is_nearest(cx, cy, dx, dy) && p == self.at(cx + dx, cy + dy),
            None => forall|dx: int, dy: int| !#[trigger] self.is_candidate(cx, cy, dx, dy),
        }
    }

    /// A picture of the given size from its pixels, row by row; nothing
    /// where the number of pixels is not the width times the height.
    pub fn from_pixels(width: usize, height: usize, pixels: Vec<Rgb>) -> (grid: Option<Self>)
        ensures
            match grid {
                Some(g) => g.wf() && g.width == width && g.height == height && g.pixels == pixels,
                None => pixels@.len() != width * height,
            },
    {
        assert(width * height <= 0xFFFF_FFFF_FFFF_FFFF * 0xFFFF_FFFF_FFFF_FFFF) by (nonlinear_arith)
            requires
                0 <= width <= 0xFFFF_FFFF_FFFF_FFFF,
                0 <= height <= 0xFFFF_FFFF_FFFF_FFFF,
        ;
        let expected: u128 = (width as u128) * (height as u128);
        if pixels.len() as u128 == expected {
            Some(PixelGrid { width, height, pixels })
        } else {
            None
        }
    }

    fn index(&self, x: usize, y: usize) -> (i: usize)
        requires
            self.wf(),
            x < self.width,
            y < self.height,
        ensures
            i == y * self.width + x,
            i < self.pixels@.len(),
    {
        let n: usize = self.pixels.len();
        assert(n == self.width * self.height);
        assert(y * self.width + x < self.width * self.height && 0 <= y * self.width <= y
            * self.width + x) by (nonlinear_arith)
            requires
                0 <= x < self.width,
                0 <= y < self.height,
        ;
        y * self.width + x
    }

    /// The pixel at `(x, y)`.
    pub fn get(&self, x: usize, y: usize) -> (pixel: Rgb)
        requires
            self.wf(),
            x < self.width,
            y < self.height,
        ensures
            pixel == self.at(x as int, y as int),
    {
        let i = self.index(x, y);
        self.pixels[i]
    }

    /// The pixel that fills a hole at `(cx, cy)`: the squares around the
    /// place are searched from the smallest to the largest, each from its
    /// top row down and each row from the left, for a pixel that is no hole.
    pub fn find_nearest_valid_pixel(&self, cx: usize, cy: usize) -> (found: Option<Rgb>)
        requires
            self.wf(),
            cx < self.width,
            cy < self.height,
        ensures
            self.fills(cx as int, cy as int, found),
    {
        let mut radius: i64 = 1;
        while radius <= SEARCH_RADIUS
            invariant
                self.wf(),
                cx < self.width,
                cy < self.height,
                1 <= radius <= SEARCH_RADIUS + 1,
                forall|ex: int, ey: int| #[trigger]
                    self.is_candidate(cx as int, cy as int, ex, ey) ==> ring(ex, ey) >= radius,
            decreases SEARCH_RADIUS + 1 - radius,
        {
            let mut dy: i64 = -radius;
            while dy <= radius
                invariant
                    self.wf(),
                    cx < self.width,
                    cy < self.height,
                    1 <= radius <= SEARCH_RADIUS,
                    -radius <= dy <= radius + 1,
                    forall|ex: int, ey: int| #[trigger]
                        self.is_candidate(cx as int, cy as int, ex, ey) ==> ring(ex, ey) >= radius,
                    forall|ex: int, ey: int| #[trigger]
                        self.is_candidate(cx as int, cy as int, ex, ey) && ring(ex, ey) == radius
                            ==> ey >= dy,
                decreases radius + 1 - dy,
            {
                let mut dx: i64 = -radius;
                while dx <= radius
                    invariant
                        self.wf(),
                        cx < self.width,
                        cy < self.height,
                        1 <= radius <= SEARCH_RADIUS,
                        -radius <= dy <= radius,
                        -radius <= dx <= radius + 1,
                        forall|ex: int, ey: int| #[trigger]
                            self.is_candidate(cx as int, cy as int, ex, ey) ==> ring(ex, ey)
                                >= radius,
                        forall|ex: int, ey: int| #[trigger]
                            self.is_candidate(cx as int, cy as int, ex, ey) && ring(ex, ey)
                                == radius ==> ey >= dy,
                        forall|ex: int, ey: int| #[trigger]
                            self.is_candidate(cx as int, cy as int, ex, ey) && ring(ex, ey)
                                == radius && ey == dy ==> ex >= dx,
                    decreases radius + 1 - dx,
                {
                    let on_ring = dx == radius || dx == -radius || dy == radius || dy == -radius;
                    if on_ring {
                        let inside = dx >= 0 || (-dx) as u64 <= cx as u64;
                        let below = dy >= 0 || (-dy) as u64 <= cy as u64;
                        if inside && below {
                            let right = dx <= 0 || (dx as u64) < (self.width - cx) as u64;
                            let above = dy <= 0 || (dy as u64) < (self.height - cy) as u64;
                            if right && above {
                                let nx: usize = if dx >= 0 {
                                    cx + dx as usize
                                } else {
                                    cx - ((-dx) as usize)
                                };
                                let ny: usize = if dy >= 0 {
                                    cy + dy as usize
                                } else {
                                    cy - ((-dy) as usize)
                                };
                                let pixel = self.get(nx, ny);
                                if pixel.r != 64 || pixel.g != 64 || pixel.b != 64 {
                                    proof {
                                        assert(ring(dx as int, dy as int) == radius);
                                        assert(self.is_candidate(
                                            cx as int,
                                            cy as int,
                                            dx as int,
                                            dy as int,
                                        ));
                                        assert(self.is_nearest(
                                            cx as int,
                                            cy as int,
                                            dx as int,
                                            dy as int,
                                        ));
                                    }
                                    return Some(pixel);
                                }
                            }
                        }
                    }
                    dx += 1;
                }
                dy += 1;
            }
            radius += 1;
        }
        None
    }

    /// Whether the pixel at `(x, y)` of `filled` is what filling the holes
    /// of this picture leaves there: a pixel that is no hole stays; a hole
    /// takes the colour of its first candidate, or stays where it has none.
    pub open spec fn filled_at(&self, filled: PixelGrid, x: int, y: int) -> bool {
        if self.is_hole(x, y) {
            ||| self.fills(x, y, Some(filled.at(x, y)))
            ||| (self.fills(x, y, None) && filled.at(x, y) == self.at(x, y))
        } else {
            filled.at(x, y) == self.at(x, y)
        }
    }

    /// Whether `filled` is this picture with its holes filled.
    pub open spec fn filled_by(&self, filled: PixelGrid) -> bool {
        &&& filled.wf()
        &&& filled.width == self.width
        &&& filled.height == self.height
        &&& forall|x: int, y: int| self.contains(x, y) ==> #[trigger] self.filled_at(filled, x, y)
    }

    /// Fills the holes of the picture: each takes the colour of the nearest
    /// pixel of the picture as it was that is no hole, where one lies within
    /// the search radius.
    pub fn fill_disocclusions(&self) -> (filled: PixelGrid)
        requires
            self.wf(),
        ensures
            self.filled_by(filled),
    {
        let mut pixels: Vec<Rgb> = Vec::new();
        let mut y: usize = 0;
        while y < self.height
            invariant
                self.wf(),
                y <= self.height,
                pixels@.len() == y * self.width,
                forall|px: int, py: int|
                    0 <= px < self.width && 0 <= py < y ==> self.pixel_filled(
                        #[trigger] pixels@[py * self.width + px],
                        px,
                        py,
                    ),
            decreases self.height - y,
        {
            let mut x: usize = 0;
            while x < self.width
                invariant
                    self.wf(),
                    y < self.height,
                    x <= self.width,
                    pixels@.len() == y * self.width + x,
                    forall|px: int, py: int|
                        0 <= px < self.width && 0 <= py < y ==> self.pixel_filled(
                            #[trigger] pixels@[py * self.width + px],
                            px,
                            py,
                        ),
                    forall|px: int|
                        0 <= px < x ==> self.pixel_filled(
                            #[trigger] pixels@[y * self.width + px],
                            px,
                            y as int,
                        ),
                decreases self.width - x,
            {
                let pixel = self.get(x, y);
                let chosen = if pixel.r == 64 && pixel.g == 64 && pixel.b == 64 {
                    match self.find_nearest_valid_pixel(x, y) {
                        Some(nearest) => nearest,
                        None => pixel,
                    }
                } else {
                    pixel
                };
                let ghost before = pixels@;
                pixels.push(chosen);
                proof {
                    assert(self.pixel_filled(chosen, x as int, y as int));
                    assert forall|px: int, py: int|
                        0 <= px < self.width && 0 <= py < y implies self.pixel_filled(
                        #[trigger] pixels@[py * self.width + px],
                        px,
                        py,
                    ) by {
                        lemma_index_bound(px, py, self.width as int, y as int);
                        assert(pixels@[py * self.width + px] == before[py * self.width + px]);
                    }
                    assert forall|px: int| 0 <= px < x + 1 implies self.pixel_filled(
                        #[trigger] pixels@[y * self.width + px],
                        px,
                        y as int,
                    ) by {
                        if px < x {
                            assert(pixels@[y * self.width + px] == before[y * self.width + px]);
                        }
                    }
                }
                x += 1;
            }
            proof {
                assert((y + 1) * self.width == y * self.width + self.width) by (nonlinear_arith);
            }
            y += 1;
        }
        let filled = PixelGrid { width: self.width, height: self.height, pixels };
        proof {
            assert(filled.pixels@.len() == self.height * self.width);
            assert(self.height * self.width == self.width * self.height) by (nonlinear_arith);
            assert forall|x: int, y: int| self.contains(x, y) implies #[trigger] self.filled_at(
                filled,
                x,
                y,
            ) by {
                assert(self.pixel_filled(filled.pixels@[y * self.width + x], x, y));
            }
        }
        filled
    }

    /// Whether `pixel` is what filling leaves at `(x, y)`.
    pub open spec fn pixel_filled(&self, pixel: Rgb, x: int, y: int) -> bool {
        if self.is_hole(x, y) {
            ||| self.fills(x, y, Some(pixel))
            ||| (self.fills(x, y, None) && pixel == self.at(x, y))
        } else {
            pixel == self.at(x, y)
        }
    }
}

/// The place of a pixel in the rows lies before the end of its row.
proof fn lemma_index_bound(px: int, py: int, width: int, rows: int)
    requires
        0 <= px < width,
        0 <= py < rows,
    ensures
        0 <= py * width + px < rows * width,
{
    assert(py * width + px < rows * width) by (nonlinear_arith)
        requires
            0 <= px < width,
            0 <= py < rows,
    ;
    assert(0 <= py * width) by (nonlinear_arith)
        requires
            0 <= py,
            0 <= width,
    ;
}

/// How far an offset is from the centre, counted in squares around it: the
/// larger of its two distances.
pub open spec fn ring(dx: int, dy: int) -> int {
    let ax = if dx < 0 {
        -dx
    } else {
        dx
    };
    let ay = if dy < 0 {
        -dy
    } else {
        dy
    };
    if ax > ay {
        ax
    } else {
        ay
    }
}

/// Whether the offset `(ax, ay)` is looked at before `(bx, by)`: it lies on
/// a smaller square, or on the same square in a row further up, or in the
/// same row further left.
pub open spec fn comes_before(ax: int, ay: int, bx: int, by: int) -> bool {
    ||| ring(ax, ay) < ring(bx, by)
    ||| (ring(ax, ay) == ring(bx, by) && ay < by)
    ||| (ring(ax, ay) == ring(bx, by) && ay == by && ax < bx)
}

/// Whether the pixel at `(x, y)` of the source, moved left by its
/// disparity, comes to lie at `(target, y)`.
pub open spec fn lands_on(disparity: Seq<i32>, width: int, x: int, y: int, target: int) -> bool {
    x - disparity[y * width + x] == target
}

impl PixelGrid {
    /// Whether `pixel` is what the right view shows at `(target, y)` once
    /// the first `columns` pixels of the row have been moved: the pixel that
    /// came to lie there last, or the background where none did.
    pub open spec fn shifted_to(
        &self,
        disparity: Seq<i32>,
        pixel: Rgb,
        target: int,
        y: int,
        columns: int,
    ) -> bool {
        ||| exists|x: int|
            {
                &&& 0 <= x < columns
                &&& #[trigger] lands_on(disparity, self.width as int, x, y, target)
                &&& pixel == self.at(x, y)
                &&& forall|later: int|
                    x < later < columns ==> !#[trigger] lands_on(
                        disparity,
                        self.width as int,
                        later,
                        y,
                        target,
                    )
            }
        ||| {
            &&& pixel == background()
            &&& forall|x: int|
                0 <= x < columns ==> !#[trigger] lands_on(
                    disparity,
                    self.width as int,
                    x,
                    y,
                    target,
                )
        }
    }

    /// Whether `right` is the right view of this picture under the
    /// disparities, before its holes are filled: every pixel of the source
    /// is moved left by its disparity, pixels that leave the picture are
    /// lost, and of several that come to lie at one place the rightmost
    /// shows.
    pub open spec fn shifted_by(&self, disparity: Seq<i32>, right: PixelGrid) -> bool {
        &&& right.wf()
        &&& right.width == self.width
        &&& right.height == self.height
        &&& forall|target: int, y: int|
            self.contains(target, y) ==> self.shifted_to(
                disparity,
                #[trigger] right.at(target, y),
                target,
                y,
                self.width as int,
            )
    }

    /// The right view of the picture before its holes are filled: every
    /// pixel is moved left by its disparity.
    pub fn shift_pixels(&self, disparity: &Vec<i32>) -> (right: PixelGrid)
        requires
            self.wf(),
            disparity@.len() == self.pixels@.len(),
        ensures
            self.shifted_by(disparity@, right),
    {
        let n: usize = self.pixels.len();
        let mut pixels: Vec<Rgb> = Vec::new();
        let mut i: usize = 0;
        while i < n
            invariant
                i <= n,
                pixels@.len() == i,
                forall|k: int| 0 <= k < i ==> pixels@[k] == background(),
            decreases n - i,
        {
            pixels.push(Rgb { r: 64, g: 64, b: 64 });
            i += 1;
        }
        proof {
            assert forall|target: int, row: int|
                0 <= target < self.width && 0 <= row < self.height implies #[trigger] pixels@[row
                * self.width + target] == background() by {
                lemma_index_bound(target, row, self.width as int, self.height as int);
                assert(self.height * self.width == self.width * self.height) by (nonlinear_arith);
            }
        }
        let mut y: usize = 0;
        while y < self.height
            invariant
                self.wf(),
                n == self.pixels@.len(),
                disparity@.len() == n,
                pixels@.len() == n,
                y <= self.height,
                forall|target: int, row: int|
                    0 <= target < self.width && 0 <= row < y ==> self.shifted_to(
                        disparity@,
                        #[trigger] pixels@[row * self.width + target],
                        target,
                        row,
                        self.width as int,
                    ),
                forall|target: int, row: int|
                    0 <= target < self.width && y <= row < self.height ==> #[trigger] pixels@[row
                        * self.width + target] == background(),
            decreases self.height - y,
        {
            let mut x: usize = 0;
            while x < self.width
                invariant
                    self.wf(),
                    n == self.pixels@.len(),
                    disparity@.len() == n,
                    pixels@.len() == n,
                    y < self.height,
                    x <= self.width,
                    forall|target: int, row: int|
                        0 <= target < self.width && 0 <= row < y ==> self.shifted_to(
                            disparity@,
                            #[trigger] pixels@[row * self.width + target],
                            target,
                            row,
                            self.width as int,
                        ),
                    forall|target: int, row: int|
                        0 <= target < self.width && y < row < self.height
                            ==> #[trigger] pixels@[row * self.width + target] == background(),
                    forall|target: int|
                        0 <= target < self.width ==> self.shifted_to(
                            disparity@,
                            #[trigger] pixels@[y * self.width + target],
                            target,
                            y as int,
                            x as int,
                        ),
                decreases self.width - x,
            {
                let from = self.index(x, y);
                let moved: i128 = x as i128 - disparity[from] as i128;
                let ghost before = pixels@;
                if 0 <= moved && moved < self.width as i128 {
                    let to = self.index(moved as usize, y);
                    pixels.set(to, self.pixels[from]);
                }
                proof {
                    let w = self.width as int;
                    assert forall|target: int, row: int|
                        0 <= target < w && 0 <= row < y implies self.shifted_to(
                        disparity@,
                        #[trigger] pixels@[row * w + target],
                        target,
                        row,
                        w,
                    ) by {
                        lemma_distinct_rows(target, row, moved as int, y as int, w);
                        lemma_index_bound(target, row, w, self.height as int);
                        assert(pixels@[row * w + target] == before[row * w + target]);
                    }
                    assert forall|target: int, row: int|
                        0 <= target < w && y < row < self.height implies #[trigger] pixels@[row * w
                        + target] == background() by {
                        lemma_distinct_rows(target, row, moved as int, y as int, w);
                        lemma_index_bound(target, row, w, self.height as int);
                        assert(pixels@[row * w + target] == before[row * w + target]);
                    }
                    assert forall|target: int| 0 <= target < w implies self.shifted_to(
                        disparity@,
                        #[trigger] pixels@[y * w + target],
                        target,
                        y as int,
                        x + 1,
                    ) by {
                        lemma_index_bound(target, y as int, w, self.height as int);
                        if target == moved {
                            assert(lands_on(disparity@, w, x as int, y as int, target));
                            assert(pixels@[y * w + target] == self.at(x as int, y as int));
                        } else {
                            assert(!lands_on(disparity@, w, x as int, y as int, target));
                            assert(pixels@[y * w + target] == before[y * w + target]);
                            assert(self.shifted_to(
                                disparity@,
                                before[y * w + target],
                                target,
                                y as int,
                                x as int,
                            ));
                            if before[y * w + target] == background() && (forall|k: int|
                                0 <= k < x ==> !#[trigger] lands_on(
                                    disparity@,
                                    w,
                                    k,
                                    y as int,
                                    target,
                                )) {
                            } else {
                                let source = choose|source: int|
                                    {
                                        &&& 0 <= source < x
                                        &&& #[trigger] lands_on(
                                            disparity@,
                                            w,
                                            source,
                                            y as int,
                                            target,
                                        )
                                        &&& before[y * w + target] == self.at(source, y as int)
                                        &&& forall|later: int|
                                            source < later < x ==> !#[trigger] lands_on(
                                                disparity@,
                                                w,
                                                later,
                                                y as int,
                                                target,
                                            )
                                    };
                                assert(lands_on(disparity@, w, source, y as int, target));
                            }
                        }
                    }
                }
                x += 1;
            }
            y += 1;
        }
        let right = PixelGrid { width: self.width, height: self.height, pixels };
        proof {
            assert forall|target: int, row: int| self.contains(target, row) implies self.shifted_to(
                disparity@,
                #[trigger] right.at(target, row),
                target,
                row,
                self.width as int,
            ) by {
                assert(right.at(target, row) == right.pixels@[row * self.width + target]);
            }
        }
        right
    }

    /// The right view of the picture under the disparities, with its holes
    /// filled.
    pub fn render_right_view(&self, disparity: &Vec<i32>) -> (right: PixelGrid)
        requires
            self.wf(),
            disparity@.len() == self.pixels@.len(),
        ensures
            exists|shifted: PixelGrid| #[trigger]
                self.shifted_by(disparity@, shifted) && shifted.filled_by(right),
    {
        let shifted = self.shift_pixels(disparity);
        let right = shifted.fill_disocclusions();
        assert(self.shifted_by(disparity@, shifted) && shifted.filled_by(right));
        right
    }
}

/// Places in different rows have different positions in the rows.
proof fn lemma_distinct_rows(x1: int, y1: int, x2: int, y2: int, width: int)
    requires
        0 <= x1 < width,
        y1 != y2,
    ensures
        0 <= x2 < width ==> y1 * width + x1 != y2 * width + x2,
{
    if 0 <= x2 < width {
        if y1 < y2 {
            assert(y1 * width + x1 < y2 * width + x2) by (nonlinear_arith)
                requires
                    0 <= x1 < width,
                    0 <= x2 < width,
                    y1 < y2,
            ;
        } else {
            assert(y2 * width + x2 < y1 * width + x1) by (nonlinear_arith)
                requires
                    0 <= x1 < width,
                    0 <= x2 < width,
                    y2 < y1,
            ;
        }
    }
}

} // verus!
