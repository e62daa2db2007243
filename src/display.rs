use vstd::prelude::*;

verus! {

/// Display width and height in pixels.
pub const DISPLAY_WIDTH: usize = 64;
pub const DISPLAY_HEIGHT: usize = 32;

/// Number of pixels, stored row-major: pixel `(x, y)` is at `y * 64 + x`.
pub const DISPLAY_SIZE: usize = 0x800;

/// A display with every pixel off.
pub open spec fn blank_display() -> Seq<bool> {
    Seq::new(DISPLAY_SIZE as nat, |p: int| false)
}

/// Turns every pixel off.
pub fn clear_display(display: &mut [bool; 0x800])
    ensures
        final(display)@ == blank_display(),
{
    let mut p: usize = 0;
    while p < DISPLAY_SIZE
        invariant
            p <= DISPLAY_SIZE,
            display@.len() == DISPLAY_SIZE,
            forall|q: int| 0 <= q < p ==> !#[trigger] display@[q],
        decreases DISPLAY_SIZE - p,
    {
        display[p] = false;
        p = p + 1;
    }
    assert(display@ =~= blank_display());
}

/// Bit `c` of a sprite row, counting from the most significant bit
/// (the leftmost pixel).
pub open spec fn row_bit(row: u8, c: int) -> bool {
    (row >> ((7 - c) as u8)) & 1u8 == 1u8
}

/// Column of pixel `p` relative to origin column `ox`, wrapping at the edge.
pub open spec fn column_offset(ox: int, p: int) -> int {
    (p % 64 + 64 - ox) % 64
}

/// Row of pixel `p` relative to origin row `oy`, wrapping at the edge.
pub open spec fn row_offset(oy: int, p: int) -> int {
    (p / 64 + 32 - oy) % 32
}

/// Whether a set bit of `sprite`, drawn with its top-left corner at
/// `(ox, oy)`, falls on pixel `p`.
pub open spec fn sprite_covers(sprite: Seq<u8>, ox: int, oy: int, p: int) -> bool {
    let dx = column_offset(ox, p);
    let dy = row_offset(oy, p);
    dy < sprite.len() && dx < 8 && row_bit(sprite[dy], dx)
}

/// The display after XOR-ing `sprite` onto it at `(ox, oy)`.
pub open spec fn drawn(display: Seq<bool>, sprite: Seq<u8>, ox: int, oy: int) -> Seq<bool> {
    Seq::new(display.len(), |p: int| display[p] != sprite_covers(sprite, ox, oy, p))
}

/// Whether drawing `sprite` at `(ox, oy)` turns some lit pixel off.
pub open spec fn collides(display: Seq<bool>, sprite: Seq<u8>, ox: int, oy: int) -> bool {
    exists|p: int| 0 <= p < display.len() && display[p] && sprite_covers(sprite, ox, oy, p)
}

/// `sprite_covers` restricted to the sprite cells before row `r`, column `c`.
spec fn covered_before(sprite: Seq<u8>, ox: int, oy: int, r: int, c: int, p: int) -> bool {
    let dx = column_offset(ox, p);
    let dy = row_offset(oy, p);
    sprite_covers(sprite, ox, oy, p) && (dy < r || (dy == r && dx < c))
}

/// The pixel under sprite cell `(r, c)` is the only one at those offsets.
proof fn lemma_cell_pixel(ox: int, oy: int, r: int, c: int, p: int)
    requires
        0 <= ox < 64,
        0 <= oy < 32,
        0 <= r < 32,
        0 <= c < 8,
        0 <= p < DISPLAY_SIZE,
    ensures
        ({
            let q = ((oy + r) % 32) * 64 + (ox + c) % 64;
            &&& 0 <= q < DISPLAY_SIZE
            &&& column_offset(ox, q) == c
            &&& row_offset(oy, q) == r
            &&& (column_offset(ox, p) == c && row_offset(oy, p) == r) ==> p == q
        }),
{
    let q = ((oy + r) % 32) * 64 + (ox + c) % 64;
    let qy = (oy + r) % 32;
    let qx = (ox + c) % 64;
    assert(q / 64 == qy && q % 64 == qx) by (nonlinear_arith)
        requires
            q == qy * 64 + qx,
            0 <= qx < 64,
            0 <= qy < 32,
    ;
    assert(p == (p / 64) * 64 + p % 64) by (nonlinear_arith)
        requires
            0 <= p,
    ;
}

/// XORs the `rows`-byte sprite stored at `ram[start..start + rows]` onto the
/// display with its top-left corner at `(x mod 64, y mod 32)`, wrapping at
/// the edges; returns whether a lit pixel was turned off.
pub fn draw_sprite(display: &mut [bool; 0x800], ram: &[u8; 0x1000], start: usize, rows: usize, x: u8, y: u8) -> (collision: bool)
    requires
        rows < 32,
        start + rows <= 0x1000,
    ensures
        final(display)@ == drawn(old(display)@, ram@.subrange(start as int, start + rows), x as int % 64, y as int % 32),
        collision == collides(old(display)@, ram@.subrange(start as int, start + rows), x as int % 64, y as int % 32),
{
    let ghost before = display@;
    let ghost sprite = ram@.subrange(start as int, start + rows);
    let ox: usize = (x % 64) as usize;
    let oy: usize = (y % 32) as usize;
    let mut collision = false;
    let mut r: usize = 0;
    while r < rows
        invariant
            r <= rows < 32,
            start + rows <= 0x1000,
            ox == x % 64,
            oy == y % 32,
            sprite == ram@.subrange(start as int, start + rows),
            display@.len() == DISPLAY_SIZE,
            before.len() == DISPLAY_SIZE,
            forall|p: int|
                0 <= p < DISPLAY_SIZE ==> #[trigger] display@[p] == (before[p] != covered_before(
                    sprite,
                    ox as int,
                    oy as int,
                    r as int,
                    0,
                    p,
                )),
            collision == exists|p: int|
                0 <= p < DISPLAY_SIZE && before[p] && covered_before(
                    sprite,
                    ox as int,
                    oy as int,
                    r as int,
                    0,
                    p,
                ),
        decreases rows - r,
    {
        let row = ram[start + r];
        assert(row == sprite[r as int]);
        let mut c: u8 = 0;
        while c < 8
            invariant
                r < rows < 32,
                c <= 8,
                ox == x % 64,
                oy == y % 32,
                row == sprite[r as int],
                sprite.len() == rows,
                display@.len() == DISPLAY_SIZE,
                before.len() == DISPLAY_SIZE,
                forall|p: int|
                    0 <= p < DISPLAY_SIZE ==> #[trigger] display@[p] == (before[p] != covered_before(
                        sprite,
                        ox as int,
                        oy as int,
                        r as int,
                        c as int,
                        p,
                    )),
                collision == exists|p: int|
                    0 <= p < DISPLAY_SIZE && before[p] && covered_before(
                        sprite,
                        ox as int,
                        oy as int,
                        r as int,
                        c as int,
                        p,
                    ),
            decreases 8 - c,
        {
            let q: usize = ((oy + r) % 32) * 64 + (ox + c as usize) % 64;
            let ghost old_display = display@;
            let ghost old_collision = collision;
            let bit = (row >> (7 - c)) & 1 == 1;
            proof {
                lemma_cell_pixel(ox as int, oy as int, r as int, c as int, 0);
            }
            if bit {
                if display[q] {
                    collision = true;
                }
                display[q] = !display[q];
            }
            proof {
                assert forall|p: int| 0 <= p < DISPLAY_SIZE implies covered_before(
                    sprite,
                    ox as int,
                    oy as int,
                    r as int,
                    c + 1,
                    p,
                ) == (covered_before(sprite, ox as int, oy as int, r as int, c as int, p) || (p
                    == q && bit)) by {
                    lemma_cell_pixel(ox as int, oy as int, r as int, c as int, p);
                }
                assert forall|p: int| 0 <= p < DISPLAY_SIZE implies #[trigger] display@[p] == (
                before[p] != covered_before(sprite, ox as int, oy as int, r as int, c + 1, p)) by {
                    lemma_cell_pixel(ox as int, oy as int, r as int, c as int, p);
                }
                if old_collision {
                    let w = choose|p: int|
                        0 <= p < DISPLAY_SIZE && before[p] && covered_before(
                            sprite,
                            ox as int,
                            oy as int,
                            r as int,
                            c as int,
                            p,
                        );
                    lemma_cell_pixel(ox as int, oy as int, r as int, c as int, w);
                    assert(covered_before(sprite, ox as int, oy as int, r as int, c + 1, w));
                }
                if bit && before[q as int] {
                    assert(covered_before(sprite, ox as int, oy as int, r as int, c + 1, q as int));
                }
                if collision {
                    assert(exists|p: int|
                        0 <= p < DISPLAY_SIZE && before[p] && covered_before(
                            sprite,
                            ox as int,
                            oy as int,
                            r as int,
                            c + 1,
                            p,
                        ));
                }
            }
            c = c + 1;
        }
        proof {
            assert forall|p: int| 0 <= p < DISPLAY_SIZE implies covered_before(
                sprite,
                ox as int,
                oy as int,
                r + 1,
                0,
                p,
            ) == covered_before(sprite, ox as int, oy as int, r as int, 8, p) by {}
        }
        r = r + 1;
    }
    proof {
        assert forall|p: int| 0 <= p < DISPLAY_SIZE implies covered_before(
            sprite,
            ox as int,
            oy as int,
            r as int,
            0,
            p,
        ) == sprite_covers(sprite, ox as int, oy as int, p) by {}
    }
    assert(display@ =~= drawn(before, sprite, x as int % 64, y as int % 32));
    collision
}

} // verus!
