//! The texture atlas: one image that holds the pixels of every glyph.
//!
//! Regions are handed out row by row, from left to right and from the top
//! down, with one texel of padding between neighbours. When the image is full
//! the atlas starts over at the top and says so, so that its owner can build a
//! new one.

use vstd::prelude::*;

verus! {

/// The largest width and height of an atlas: texel coordinates are 16 bits wide.
pub const MAX_ATLAS_SIDE: usize = 65535;

/// Texels left free between two neighbouring regions.
pub const PADDING: usize = 1;

/// A rectangle of texels.
pub struct Region {
    pub x: usize,
    pub y: usize,
    pub width: usize,
    pub height: usize,
}

impl Region {
    /// Whether the texel `(x, y)` lies in the region.
    pub open spec fn contains(&self, x: int, y: int) -> bool {
        self.x <= x < self.x + self.width && self.y <= y < self.y + self.height
    }

    /// Whether the two regions share no texel.
    pub open spec fn disjoint(&self, other: &Region) -> bool {
        ||| self.x + self.width <= other.x
        ||| other.x + other.width <= self.x
        ||| self.y + self.height <= other.y
        ||| other.y + other.height <= self.y
    }
}

/// Where the next region goes, and what was handed out so far.
pub struct Packer {
    /// Where the next region of the current row starts.
    pub cursor_x: usize,
    /// The top of the current row.
    pub cursor_y: usize,
    /// The height of the tallest region of the current row.
    pub row_height: usize,
    /// How many regions were handed out. The counter stops at its largest
    /// value.
    pub allocations: u64,
    /// Whether the atlas ever ran out of room and started over.
    pub overflowed: bool,
    /// The regions handed out since the atlas last started over.
    pub live: Ghost<Seq<Region>>,
}

impl Packer {
    /// Whether `region` lies in the rows above the current one, or in the
    /// current row to the left of the cursor.
    pub open spec fn behind_cursor(&self, region: Region) -> bool {
        ||| region.y + region.height <= self.cursor_y
        ||| {
            &&& region.y == self.cursor_y
            &&& region.x + region.width <= self.cursor_x
            &&& region.height <= self.row_height
        }
    }

    /// The invariant of the packer in an image of the given size: the current
    /// row lies inside the image, and every live region is behind the cursor.
    pub open spec fn wf(&self, width: nat, height: nat) -> bool {
        &&& self.cursor_x <= width + PADDING
        &&& self.cursor_y + self.row_height <= height
        &&& forall|i: int|
            0 <= i < self.live@.len() ==> self.behind_cursor(#[trigger] self.live@[i])
    }
}

/// An image of coverage values out of which regions are handed.
pub struct TextureAtlas {
    width: usize,
    height: usize,
    /// One coverage value for each texel, row after row.
    pixels: Vec<u8>,
    packer: Packer,
}

impl TextureAtlas {
    /// The width of the image in texels.
    pub closed spec fn spec_width(&self) -> nat {
        self.width as nat
    }

    /// The height of the image in texels.
    pub closed spec fn spec_height(&self) -> nat {
        self.height as nat
    }

    /// The coverage values of the image, row after row.
    pub closed spec fn texels(&self) -> Seq<u8> {
        self.pixels@
    }

    /// The coverage value of the texel `(x, y)`.
    pub open spec fn texel(&self, x: int, y: int) -> u8 {
        self.texels()[y * self.spec_width() + x]
    }

    /// Where the next region goes, and what was handed out so far.
    pub closed spec fn spec_packer(&self) -> Packer {
        self.packer
    }

    /// How many regions were handed out, as far as the counter can count.
    pub open spec fn spec_allocations(&self) -> nat {
        self.spec_packer().allocations as nat
    }

    /// Whether the atlas ever ran out of room and started over.
    pub open spec fn spec_overflowed(&self) -> bool {
        self.spec_packer().overflowed
    }

    /// The regions handed out since the atlas last started over, oldest first.
    pub open spec fn live_regions(&self) -> Seq<Region> {
        self.spec_packer().live@
    }

    /// The invariant of the atlas: the image has its size, and the live
    /// regions are not empty, lie inside the image and apart from each other.
    pub open spec fn wf(&self) -> bool {
        &&& 0 < self.spec_width() <= MAX_ATLAS_SIDE
        &&& 0 < self.spec_height() <= MAX_ATLAS_SIDE
        &&& self.texels().len() == self.spec_width() * self.spec_height()
        &&& self.spec_packer().wf(self.spec_width(), self.spec_height())
        &&& regions_inside(self.live_regions(), self.spec_width(), self.spec_height())
        &&& regions_apart(self.live_regions())
    }

    /// Whether a region of this size can be handed out at all: it is not
    /// empty and not larger than the image.
    pub open spec fn can_hold(&self, width: nat, height: nat) -> bool {
        0 < width <= self.spec_width() && 0 < height <= self.spec_height()
    }

    /// Whether a region of this width does not fit into what is left of the
    /// current row.
    pub open spec fn row_is_full(&self, width: nat) -> bool {
        self.spec_packer().cursor_x + width > self.spec_width()
    }

    /// Whether a region of this size no longer fits below what was handed
    /// out, so that the atlas starts over at the top.
    pub open spec fn starts_over(&self, width: nat, height: nat) -> bool {
        let y = if self.row_is_full(width) {
            self.spec_packer().cursor_y + self.spec_packer().row_height + PADDING
        } else {
            self.spec_packer().cursor_y as int
        };
        y + height > self.spec_height()
    }

    /// Where a region of this size goes: into the current row if it has room,
    /// else into a new row below it, and if that reaches below the image, to
    /// the top left corner of the image.
    pub open spec fn placement(&self, width: nat, height: nat) -> (int, int) {
        if self.starts_over(width, height) {
            (0, 0)
        } else if self.row_is_full(width) {
            (0, self.spec_packer().cursor_y + self.spec_packer().row_height + PADDING)
        } else {
            (self.spec_packer().cursor_x as int, self.spec_packer().cursor_y as int)
        }
    }

    /// The packer once a region of this size has been handed out: the cursor
    /// is behind the region and the padding, the row is as high as its
    /// tallest region, and the region is one of the live ones, which are the
    /// only ones where the atlas has started over.
    pub open spec fn packer_after(&self, width: nat, height: nat) -> Packer {
        let pos = self.placement(width, height);
        let starts_over = self.starts_over(width, height);
        let moved = starts_over || self.row_is_full(width);
        let region = Region {
            x: pos.0 as usize,
            y: pos.1 as usize,
            width: width as usize,
            height: height as usize,
        };
        Packer {
            cursor_x: (pos.0 + width + PADDING) as usize,
            cursor_y: pos.1 as usize,
            row_height: if moved || height > self.spec_packer().row_height {
                height as usize
            } else {
                self.spec_packer().row_height
            },
            allocations: if self.spec_packer().allocations < u64::MAX {
                (self.spec_packer().allocations + 1) as u64
            } else {
                self.spec_packer().allocations
            },
            overflowed: self.spec_packer().overflowed || starts_over,
            live: Ghost(
                if starts_over {
                    seq![region]
                } else {
                    self.spec_packer().live@.push(region)
                },
            ),
        }
    }

    /// The number of regions handed out once one more has been.
    pub open spec fn allocations_after(&self) -> nat {
        if self.spec_allocations() < u64::MAX {
            self.spec_allocations() + 1
        } else {
            self.spec_allocations()
        }
    }

    /// Whether this is the atlas `before` once it has handed out a region of
    /// `width` by `height` texels and the coverage values of a glyph have
    /// been written into the region.
    pub open spec fn holds_glyph(
        &self,
        before: &TextureAtlas,
        width: usize,
        height: usize,
        coverage: Seq<u8>,
    ) -> bool {
        let place = before.placement(width as nat, height as nat);
        let pos = (place.0 as usize, place.1 as usize);
        &&& self.spec_width() == before.spec_width()
        &&& self.spec_height() == before.spec_height()
        &&& self.spec_packer() == before.packer_after(width as nat, height as nat)
        &&& self.spec_allocations() == before.allocations_after()
        &&& self.spec_overflowed() == (before.spec_overflowed() || before.starts_over(
            width as nat,
            height as nat,
        ))
        &&& self.live_regions() == if before.starts_over(width as nat, height as nat) {
            seq![(Region { x: pos.0, y: pos.1, width, height })]
        } else {
            before.live_regions().push((Region { x: pos.0, y: pos.1, width, height }))
        }
        &&& forall|x: int, y: int|
            0 <= x < self.spec_width() && 0 <= y < self.spec_height() ==> (#[trigger] self.texel(
                x,
                y,
            )) == blitted(before.texel(x, y), pos, width, height, coverage, x, y)
    }

    /// An atlas of the given size with every texel clear, or nothing where a
    /// side is zero or too long for 16-bit coordinates.
    pub fn new(width: usize, height: usize) -> (r: Option<TextureAtlas>)
        ensures
            r is Some <==> 0 < width <= MAX_ATLAS_SIDE && 0 < height <= MAX_ATLAS_SIDE,
            r matches Some(atlas) ==> {
                &&& atlas.wf()
                &&& atlas.spec_width() == width
                &&& atlas.spec_height() == height
                &&& atlas.spec_packer() == (Packer {
                    cursor_x: 0,
                    cursor_y: 0,
                    row_height: 0,
                    allocations: 0,
                    overflowed: false,
                    live: Ghost(Seq::empty()),
                })
                &&& atlas.texels() == Seq::new((width * height) as nat, |i: int| 0u8)
            },
    {
        if width == 0 || width > MAX_ATLAS_SIDE || height == 0 || height > MAX_ATLAS_SIDE {
            return None;
        }
        assert(width * height <= 65535 * 65535) by (nonlinear_arith)
            requires
                width <= 65535,
                height <= 65535,
        {
        }
        let len: u64 = width as u64 * height as u64;
        let mut pixels: Vec<u8> = Vec::new();
        let mut i: u64 = 0;
        while i < len
            invariant
                i <= len,
                pixels@.len() == i,
                forall|j: int| 0 <= j < i ==> pixels@[j] == 0,
            decreases len - i,
        {
            pixels.push(0);
            i += 1;
        }
        let packer = Packer {
            cursor_x: 0,
            cursor_y: 0,
            row_height: 0,
            allocations: 0,
            overflowed: false,
            live: Ghost(Seq::empty()),
        };
        Some(TextureAtlas { width, height, pixels, packer })
    }

    /// The width of the image in texels.
    pub fn width(&self) -> (r: usize)
        ensures
            r == self.spec_width(),
    {
        self.width
    }

    /// The height of the image in texels.
    pub fn height(&self) -> (r: usize)
        ensures
            r == self.spec_height(),
    {
        self.height
    }

    /// How many regions were handed out. The counter stops at its largest value.
    pub fn allocations(&self) -> (r: u64)
        ensures
            r == self.spec_allocations(),
    {
        self.packer.allocations
    }

    /// Whether the atlas ever ran out of room and started over: regions that
    /// were handed out before may have been handed out again.
    pub fn overflowed(&self) -> (r: bool)
        ensures
            r == self.spec_overflowed(),
    {
        self.packer.overflowed
    }

    /// The coverage value of the texel `(x, y)`.
    pub fn pixel(&self, x: usize, y: usize) -> (r: u8)
        requires
            self.wf(),
            x < self.spec_width(),
            y < self.spec_height(),
        ensures
            r == self.texel(x as int, y as int),
    {
        proof {
            lemma_texel_index(x as int, y as int, self.width as int, self.height as int);
        }
        self.pixels[y * self.width + x]
    }

    /// Reserves a region of `width` by `height` texels and returns its top
    /// left corner, or nothing where the region is empty or larger than the
    /// image. The region lies inside the image, and shares no texel with any
    /// other region handed out since the atlas last started over. The texels
    /// stay as they are.
    pub fn allocate(&mut self, width: usize, height: usize) -> (r: Option<(usize, usize)>)
        requires
            old(self).wf(),
        ensures
            final(self).wf(),
            final(self).spec_width() == old(self).spec_width(),
            final(self).spec_height() == old(self).spec_height(),
            final(self).texels() == old(self).texels(),
            r is Some <==> old(self).can_hold(width as nat, height as nat),
            r is None ==> *final(self) == *old(self),
            r matches Some(pos) ==> {
                let region = (Region { x: pos.0, y: pos.1, width, height });
                &&& (pos.0 as int, pos.1 as int) == old(self).placement(width as nat, height as nat)
                &&& pos.0 + width <= final(self).spec_width()
                &&& pos.1 + height <= final(self).spec_height()
                &&& final(self).spec_packer() == old(self).packer_after(width as nat, height as nat)
                &&& final(self).spec_allocations() == old(self).allocations_after()
                &&& final(self).spec_overflowed() == (old(self).spec_overflowed() || old(
                    self,
                ).starts_over(width as nat, height as nat))
                &&& final(self).live_regions() == if old(self).starts_over(
                    width as nat,
                    height as nat,
                ) {
                    seq![region]
                } else {
                    old(self).live_regions().push(region)
                }
            },
    {
        if width == 0 || width > self.width || height == 0 || height > self.height {
            return None;
        }
        let ghost old_packer = self.packer;
        let mut cursor_x = self.packer.cursor_x;
        let mut cursor_y = self.packer.cursor_y;
        let mut row_height = self.packer.row_height;
        let mut overflowed = self.packer.overflowed;
        let mut restarted = false;
        if cursor_x + width > self.width {
            // The row is full: go on below it.
            cursor_x = 0;
            cursor_y = cursor_y + row_height + PADDING;
            row_height = 0;
        }
        if cursor_y + height > self.height {
            // The image is full: start over at the top.
            cursor_x = 0;
            cursor_y = 0;
            row_height = 0;
            overflowed = true;
            restarted = true;
        }
        if height > row_height {
            row_height = height;
        }
        let pos = (cursor_x, cursor_y);
        let ghost region = Region { x: pos.0, y: pos.1, width, height };
        let ghost kept = if restarted {
            Seq::<Region>::empty()
        } else {
            old_packer.live@
        };
        let packer = Packer {
            cursor_x: cursor_x + width + PADDING,
            cursor_y,
            row_height,
            allocations: self.packer.allocations.saturating_add(1),
            overflowed,
            live: Ghost(kept.push(region)),
        };
        proof {
            let live = kept.push(region);
            assert forall|i: int| 0 <= i < live.len() implies packer.behind_cursor(
                #[trigger] live[i],
            ) by {
                if i < kept.len() {
                    assert(live[i] == old_packer.live@[i]);
                    assert(old_packer.behind_cursor(old_packer.live@[i]));
                }
            }
            assert forall|i: int| 0 <= i < live.len() implies inside(
                #[trigger] live[i],
                self.width as nat,
                self.height as nat,
            ) by {
                if i < kept.len() {
                    assert(live[i] == old_packer.live@[i]);
                }
            }
            assert forall|i: int, j: int| 0 <= i < j < live.len() implies #[trigger] apart(
                live,
                i,
                j,
            ) by {
                assert(live[i] == old_packer.live@[i]);
                assert(old_packer.behind_cursor(old_packer.live@[i]));
                assert(inside(old_packer.live@[i], self.width as nat, self.height as nat));
                if j < kept.len() {
                    assert(live[j] == old_packer.live@[j]);
                    assert(apart(old_packer.live@, i, j));
                }
            }
        }
        self.packer = packer;
        Some(pos)
    }

    /// Writes a block of coverage values into the image, with its top left
    /// corner at `pos`. A value of zero leaves the texel as it is.
    pub fn blit(&mut self, pos: (usize, usize), width: usize, height: usize, coverage: &Vec<u8>)
        requires
            old(self).wf(),
            pos.0 + width <= old(self).spec_width(),
            pos.1 + height <= old(self).spec_height(),
            coverage@.len() == width * height,
        ensures
            final(self).wf(),
            final(self).spec_width() == old(self).spec_width(),
            final(self).spec_height() == old(self).spec_height(),
            final(self).spec_packer() == old(self).spec_packer(),
            final(self).spec_allocations() == old(self).spec_allocations(),
            final(self).spec_overflowed() == old(self).spec_overflowed(),
            final(self).live_regions() == old(self).live_regions(),
            forall|x: int, y: int|
                0 <= x < final(self).spec_width() && 0 <= y < final(self).spec_height() ==> (
                #[trigger] final(self).texel(x, y)) == blitted(
                    old(self).texel(x, y),
                    pos,
                    width,
                    height,
                    coverage@,
                    x,
                    y,
                ),
    {
        let ghost before = *self;
        let mut row: usize = 0;
        while row < height
            invariant
                row <= height,
                0 < self.width <= MAX_ATLAS_SIDE,
                0 < self.height <= MAX_ATLAS_SIDE,
                self.pixels@.len() == self.width * self.height,
                before.pixels@.len() == self.width * self.height,
                pos.0 + width <= self.width,
                pos.1 + height <= self.height,
                coverage@.len() == width * height,
                self.width == before.width,
                self.height == before.height,
                self.packer == before.packer,
                forall|x: int, y: int|
                    0 <= x < self.width && 0 <= y < self.height ==> (#[trigger] self.texel(x, y))
                        == if y < pos.1 + row {
                        blitted(before.texel(x, y), pos, width, height, coverage@, x, y)
                    } else {
                        before.texel(x, y)
                    },
            decreases height - row,
        {
            let mut column: usize = 0;
            while column < width
                invariant
                    row < height,
                    column <= width,
                    0 < self.width <= MAX_ATLAS_SIDE,
                    0 < self.height <= MAX_ATLAS_SIDE,
                    self.pixels@.len() == self.width * self.height,
                    before.pixels@.len() == self.width * self.height,
                    pos.0 + width <= self.width,
                    pos.1 + height <= self.height,
                    coverage@.len() == width * height,
                    self.width == before.width,
                    self.height == before.height,
                    self.packer == before.packer,
                    forall|x: int, y: int|
                        0 <= x < self.width && 0 <= y < self.height ==> (#[trigger] self.texel(
                            x,
                            y,
                        )) == if y < pos.1 + row || (y == pos.1 + row && x < pos.0 + column) {
                            blitted(before.texel(x, y), pos, width, height, coverage@, x, y)
                        } else {
                            before.texel(x, y)
                        },
                decreases width - column,
            {
                proof {
                    lemma_texel_index(column as int, row as int, width as int, height as int);
                    lemma_texel_index(
                        (pos.0 + column) as int,
                        (pos.1 + row) as int,
                        self.width as int,
                        self.height as int,
                    );
                }
                let value = coverage[row * width + column];
                if value > 0 {
                    let ghost previous = *self;
                    let index = (pos.1 + row) * self.width + (pos.0 + column);
                    self.pixels.set(index, value);
                    proof {
                        assert forall|x: int, y: int|
                            0 <= x < self.width && 0 <= y < self.height implies (
                        #[trigger] self.texel(x, y)) == if x == pos.0 + column && y == pos.1
                            + row {
                            value
                        } else {
                            previous.texel(x, y)
                        } by {
                            lemma_texel_index(x, y, self.width as int, self.height as int);
                            lemma_texel_distinct(
                                x,
                                y,
                                (pos.0 + column) as int,
                                (pos.1 + row) as int,
                                self.width as int,
                            );
                        }
                    }
                }
                column += 1;
            }
            row += 1;
        }
    }
}

/// Whether the region is not empty and lies in an image of the given size.
pub open spec fn inside(region: Region, width: nat, height: nat) -> bool {
    &&& region.width > 0
    &&& region.height > 0
    &&& region.x + region.width <= width
    &&& region.y + region.height <= height
}

/// Whether every one of the regions is not empty and lies in an image of the
/// given size.
pub open spec fn regions_inside(regions: Seq<Region>, width: nat, height: nat) -> bool {
    forall|i: int| 0 <= i < regions.len() ==> inside(#[trigger] regions[i], width, height)
}

/// Whether the regions at `i` and at `j` share no texel.
pub open spec fn apart(regions: Seq<Region>, i: int, j: int) -> bool {
    regions[i].disjoint(&regions[j])
}

/// Whether no two of the regions share a texel.
pub open spec fn regions_apart(regions: Seq<Region>) -> bool {
    forall|i: int, j: int| 0 <= i < j < regions.len() ==> #[trigger] apart(regions, i, j)
}

/// The value of the texel `(x, y)` once a block of coverage values has been
/// written with its top left corner at `pos`: the value of the block where it
/// covers the texel with more than zero, else the value from before.
pub open spec fn blitted(
    before: u8,
    pos: (usize, usize),
    width: usize,
    height: usize,
    coverage: Seq<u8>,
    x: int,
    y: int,
) -> u8 {
    if pos.0 <= x < pos.0 + width && pos.1 <= y < pos.1 + height && coverage[(y - pos.1) * width
        + (x - pos.0)] > 0 {
        coverage[(y - pos.1) * width + (x - pos.0)]
    } else {
        before
    }
}

/// The texels of an image lie row after row: each has an index of its own
/// inside the image.
pub proof fn lemma_texel_index(x: int, y: int, width: int, height: int)
    requires
        0 <= x < width,
        0 <= y < height,
    ensures
        0 <= y * width + x < width * height,
        0 <= y * width <= width * height,
        width <= 65535 && height <= 65535 ==> width * height <= 65535 * 65535,
{
    assert(y * width <= (height - 1) * width) by (nonlinear_arith)
        requires
            0 <= y <= height - 1,
            0 < width,
    {
    }
    assert((height - 1) * width + width == width * height) by (nonlinear_arith);
    assert(0 <= y * width) by (nonlinear_arith)
        requires
            0 <= y,
            0 < width,
    {
    }
    if width <= 65535 && height <= 65535 {
        assert(width * height <= 65535 * 65535) by (nonlinear_arith)
            requires
                0 < width <= 65535,
                0 < height <= 65535,
        {
        }
    }
}

/// Two different texels of an image have different indices.
pub proof fn lemma_texel_distinct(x1: int, y1: int, x2: int, y2: int, width: int)
    requires
        0 <= x1 < width,
        0 <= x2 < width,
        0 <= y1,
        0 <= y2,
    ensures
        y1 * width + x1 == y2 * width + x2 <==> x1 == x2 && y1 == y2,
{
    if y1 < y2 {
        assert(y1 * width + width <= y2 * width) by (nonlinear_arith)
            requires
                y1 + 1 <= y2,
                0 < width,
        {
        }
    }
    if y2 < y1 {
        assert(y2 * width + width <= y1 * width) by (nonlinear_arith)
            requires
                y2 + 1 <= y1,
                0 < width,
        {
        }
    }
}

} // verus!
