use vstd::prelude::*;

use crate::consts;

verus! {

/// An operation on the host's render surface, which mirrors the framebuffer.
#[derive(Debug, Clone, Copy, PartialEq, Eq, Structural)]
pub enum RenderCommand {
    /// Turn every pixel off.
    Clear,
    /// Set the pixel at column `x`, row `y`.
    SetPixel { x: u8, y: u8, on: bool },
    /// Show what has been drawn.
    Present,
}

/// The framebuffer is a sequence of `64 * 32` pixels, row after row.
pub open spec fn frame_size() -> nat {
    (consts::DISPLAY_WIDTH * consts::DISPLAY_HEIGHT) as nat
}

/// Where the pixel at column `x`, row `y` lies in the framebuffer; both coordinates wrap.
pub open spec fn pixel_index(x: int, y: int) -> int {
    (y % consts::DISPLAY_HEIGHT as int) * consts::DISPLAY_WIDTH as int + (x % consts::DISPLAY_WIDTH as int)
}

/// Bit `i` of a sprite row, counting from the most significant bit.
pub open spec fn row_bit(byte: u8, i: int) -> bool {
    (byte >> ((7 - i) as u8)) & 1u8 == 1u8
}

/// The framebuffer after the first `m` bit positions of `sprite` have been drawn at `(x, y)`.
/// Position `p` is bit `p % 8` of row `p / 8`; a set bit flips its pixel.
pub open spec fn toggled(fb: Seq<bool>, sprite: Seq<u8>, x: u8, y: u8, m: nat) -> Seq<bool>
    decreases m,
{
    if m == 0 {
        fb
    } else {
        let prev = toggled(fb, sprite, x, y, (m - 1) as nat);
        let r = (m - 1) / 8;
        let i = (m - 1) % 8;
        let k = pixel_index(x + i, y + r);
        if row_bit(sprite[r], i) {
            prev.update(k, !prev[k])
        } else {
            prev
        }
    }
}

/// The framebuffer after `sprite` is drawn at `(x, y)` by exclusive or.
pub open spec fn drawn(fb: Seq<bool>, sprite: Seq<u8>, x: u8, y: u8) -> Seq<bool> {
    toggled(fb, sprite, x, y, 8 * sprite.len())
}

/// The surface updates for the first `m` bit positions: each position sets its pixel to
/// the state it has right after that position is drawn.
pub open spec fn pixel_updates(fb: Seq<bool>, sprite: Seq<u8>, x: u8, y: u8, m: nat) -> Seq<
    RenderCommand,
>
    decreases m,
{
    if m == 0 {
        Seq::empty()
    } else {
        let r = (m - 1) / 8;
        let i = (m - 1) % 8;
        let k = pixel_index(x + i, y + r);
        pixel_updates(fb, sprite, x, y, (m - 1) as nat).push(
            RenderCommand::SetPixel {
                x: ((x + i) % consts::DISPLAY_WIDTH as int) as u8,
                y: ((y + r) % consts::DISPLAY_HEIGHT as int) as u8,
                on: toggled(fb, sprite, x, y, m)[k],
            },
        )
    }
}

/// What drawing `sprite` at `(x, y)` sends to the surface: one update per bit, then a
/// present.
pub open spec fn draw_commands(fb: Seq<bool>, sprite: Seq<u8>, x: u8, y: u8) -> Seq<
    RenderCommand,
> {
    pixel_updates(fb, sprite, x, y, 8 * sprite.len()).push(RenderCommand::Present)
}

/// The surface updates that paint `sprite` at `(x, y)` as it is, each pixel set to its bit.
pub open spec fn painted(sprite: Seq<u8>, x: u8, y: u8, m: nat) -> Seq<RenderCommand>
    decreases m,
{
    if m == 0 {
        Seq::empty()
    } else {
        let r = (m - 1) / 8;
        let i = (m - 1) % 8;
        painted(sprite, x, y, (m - 1) as nat).push(
            RenderCommand::SetPixel {
                x: ((x + i) % consts::DISPLAY_WIDTH as int) as u8,
                y: ((y + r) % consts::DISPLAY_HEIGHT as int) as u8,
                on: row_bit(sprite[r], i),
            },
        )
    }
}

proof fn lemma_position(r: int, i: int)
    requires
        0 <= r,
        0 <= i < 8,
    ensures
        (8 * r + i) / 8 == r,
        (8 * r + i) % 8 == i,
{
    assert((8 * r + i) / 8 == r && (8 * r + i) % 8 == i) by (nonlinear_arith)
        requires
            0 <= r,
            0 <= i < 8,
    ;
}

/// Draws `sprite` at `(x_coord, y_coord)` onto `pixels` by exclusive or, each row `r` on
/// row `y + r`, each bit `i` on column `x + i` (both wrapping), and appends to `commands`
/// the updates that bring the surface along.
pub fn xor_sprite(
    pixels: &mut Vec<bool>,
    commands: &mut Vec<RenderCommand>,
    sprite: &Vec<u8>,
    x_coord: u8,
    y_coord: u8,
)
    requires
        old(pixels)@.len() == frame_size(),
    ensures
        final(pixels)@ == drawn(old(pixels)@, sprite@, x_coord, y_coord),
        final(commands)@ == old(commands)@ + draw_commands(old(pixels)@, sprite@, x_coord, y_coord),
{
    let ghost fb0 = pixels@;
    let ghost cmds0 = commands@;
    let mut y: usize = y_coord as usize % consts::DISPLAY_HEIGHT;
    let mut r: usize = 0;
    while r < sprite.len()
        invariant
            fb0.len() == frame_size(),
            0 <= r <= sprite.len(),
            y == (y_coord + r) % (consts::DISPLAY_HEIGHT as int),
            pixels@ == toggled(fb0, sprite@, x_coord, y_coord, (8 * r) as nat),
            commands@ == cmds0 + pixel_updates(fb0, sprite@, x_coord, y_coord, (8 * r) as nat),
        decreases sprite.len() - r,
    {
        let row = sprite[r];
        let mut i: u8 = 0;
        while i < 8
            invariant
                fb0.len() == frame_size(),
                0 <= r < sprite.len(),
                row == sprite@[r as int],
                0 <= i <= 8,
                y == (y_coord + r) % (consts::DISPLAY_HEIGHT as int),
                pixels@ == toggled(fb0, sprite@, x_coord, y_coord, (8 * r + i) as nat),
                commands@ == cmds0 + pixel_updates(
                    fb0,
                    sprite@,
                    x_coord,
                    y_coord,
                    (8 * r + i) as nat,
                ),
            decreases 8 - i,
        {
            proof {
                lemma_position(r as int, i as int);
                lemma_toggled_len(fb0, sprite@, x_coord, y_coord, (8 * r + i) as nat);
            }
            let x: usize = (x_coord as usize + i as usize) % consts::DISPLAY_WIDTH;
            let k: usize = y * consts::DISPLAY_WIDTH + x;
            if (row >> (7 - i)) & 1 == 1 {
                let old_pixel = pixels[k];
                pixels.set(k, !old_pixel);
            }
            commands.push(RenderCommand::SetPixel { x: x as u8, y: y as u8, on: pixels[k] });
            i += 1;
            assert(commands@ =~= cmds0 + pixel_updates(
                fb0,
                sprite@,
                x_coord,
                y_coord,
                (8 * r + i) as nat,
            ));
        }
        y = (y + 1) % consts::DISPLAY_HEIGHT;
        r += 1;
    }
    commands.push(RenderCommand::Present);
    assert(commands@ =~= cmds0 + draw_commands(fb0, sprite@, x_coord, y_coord));
}

/// The updates that paint `sprite` at `(x_coord, y_coord)` over whatever is there, each
/// pixel set to its bit, with both coordinates wrapping.
pub fn sprite_pixels(sprite: &Vec<u8>, x_coord: u8, y_coord: u8) -> (r: Vec<RenderCommand>)
    ensures
        r@ == painted(sprite@, x_coord, y_coord, 8 * sprite@.len()),
{
    let mut out: Vec<RenderCommand> = Vec::new();
    let mut y: usize = y_coord as usize % consts::DISPLAY_HEIGHT;
    let mut r: usize = 0;
    while r < sprite.len()
        invariant
            0 <= r <= sprite.len(),
            y == (y_coord + r) % (consts::DISPLAY_HEIGHT as int),
            out@ == painted(sprite@, x_coord, y_coord, (8 * r) as nat),
        decreases sprite.len() - r,
    {
        let row = sprite[r];
        let mut i: u8 = 0;
        while i < 8
            invariant
                0 <= r < sprite.len(),
                row == sprite@[r as int],
                0 <= i <= 8,
                y == (y_coord + r) % (consts::DISPLAY_HEIGHT as int),
                out@ == painted(sprite@, x_coord, y_coord, (8 * r + i) as nat),
            decreases 8 - i,
        {
            proof {
                lemma_position(r as int, i as int);
            }
            let x: usize = (x_coord as usize + i as usize) % consts::DISPLAY_WIDTH;
            out.push(RenderCommand::SetPixel { x: x as u8, y: y as u8, on: (row >> (7 - i)) & 1 == 1 });
            i += 1;
        }
        y = (y + 1) % consts::DISPLAY_HEIGHT;
        r += 1;
    }
    out
}

pub proof fn lemma_pixel_index_in_frame(x: int, y: int)
    ensures
        0 <= pixel_index(x, y) < frame_size(),
{
    let cx = x % 64;
    let cy = y % 32;
    assert(0 <= cy * 64 + cx < 2048) by (nonlinear_arith)
        requires
            0 <= cx < 64,
            0 <= cy < 32,
    ;
}

pub proof fn lemma_toggled_len(fb: Seq<bool>, sprite: Seq<u8>, x: u8, y: u8, m: nat)
    requires
        fb.len() == frame_size(),
    ensures
        toggled(fb, sprite, x, y, m).len() == fb.len(),
    decreases m,
{
    if m > 0 {
        lemma_toggled_len(fb, sprite, x, y, (m - 1) as nat);
        lemma_pixel_index_in_frame(x + (m - 1) % 8, y + (m - 1) / 8);
    }
}

/// Whether the first `m` bit positions of `sprite` drawn at `(x, y)` flip the pixel at
/// index `k` an odd number of times.
pub open spec fn flips(sprite: Seq<u8>, x: u8, y: u8, k: int, m: nat) -> bool
    decreases m,
{
    if m == 0 {
        false
    } else {
        let r = (m - 1) / 8;
        let i = (m - 1) % 8;
        flips(sprite, x, y, k, (m - 1) as nat) != (row_bit(sprite[r], i) && pixel_index(x + i, y + r)
            == k)
    }
}

proof fn lemma_toggled_flips(fb: Seq<bool>, sprite: Seq<u8>, x: u8, y: u8, m: nat, k: int)
    requires
        fb.len() == frame_size(),
        0 <= k < frame_size(),
    ensures
        toggled(fb, sprite, x, y, m)[k] == (fb[k] != flips(sprite, x, y, k, m)),
    decreases m,
{
    if m > 0 {
        lemma_toggled_flips(fb, sprite, x, y, (m - 1) as nat, k);
        lemma_toggled_len(fb, sprite, x, y, (m - 1) as nat);
        lemma_pixel_index_in_frame(x + (m - 1) % 8, y + (m - 1) / 8);
    }
}

proof fn lemma_pixel_index_injective(x: int, y: int, r: int, i: int, r0: int, i0: int)
    requires
        0 <= r < 32,
        0 <= r0 < 32,
        0 <= i < 8,
        0 <= i0 < 8,
        pixel_index(x + i, y + r) == pixel_index(x + i0, y + r0),
    ensures
        r == r0,
        i == i0,
{
    let a = (y + r) % 32;
    let b = (x + i) % 64;
    let c = (y + r0) % 32;
    let d = (x + i0) % 64;
    assert(a == c && b == d) by (nonlinear_arith)
        requires
            a * 64 + b == c * 64 + d,
            0 <= b < 64,
            0 <= d < 64,
    ;
    assert(i == i0) by (nonlinear_arith)
        requires
            (x + i) % 64 == (x + i0) % 64,
            0 <= i < 8,
            0 <= i0 < 8,
    ;
    assert(r == r0) by (nonlinear_arith)
        requires
            (y + r) % 32 == (y + r0) % 32,
            0 <= r < 32,
            0 <= r0 < 32,
    ;
}

proof fn lemma_flips_one_pixel(sprite: Seq<u8>, x: u8, y: u8, r0: int, i0: int, m: nat)
    requires
        sprite.len() <= 32,
        0 <= r0 < sprite.len(),
        0 <= i0 < 8,
        m <= 8 * sprite.len(),
    ensures
        flips(sprite, x, y, pixel_index(x + i0, y + r0), m) == (m > 8 * r0 + i0 && row_bit(
            sprite[r0],
            i0,
        )),
    decreases m,
{
    if m > 0 {
        let p = (m - 1) as int;
        let r = p / 8;
        let i = p % 8;
        lemma_flips_one_pixel(sprite, x, y, r0, i0, (m - 1) as nat);
        assert(0 <= r < 32 && 0 <= i < 8 && p == 8 * r + i) by (nonlinear_arith)
            requires
                0 <= p < 8 * sprite.len(),
                sprite.len() <= 32,
                r == p / 8,
                i == p % 8,
        ;
        if pixel_index(x + i, y + r) == pixel_index(x + i0, y + r0) {
            lemma_pixel_index_injective(x as int, y as int, r, i, r0, i0);
        }
    }
}

/// Drawing the same sprite twice at the same place leaves the framebuffer as it was.
pub proof fn lemma_draw_twice_restores(fb: Seq<bool>, sprite: Seq<u8>, x: u8, y: u8)
    requires
        fb.len() == frame_size(),
    ensures
        drawn(drawn(fb, sprite, x, y), sprite, x, y) == fb,
{
    let m = 8 * sprite.len();
    let once = drawn(fb, sprite, x, y);
    lemma_toggled_len(fb, sprite, x, y, m);
    lemma_toggled_len(once, sprite, x, y, m);
    assert forall|k: int| 0 <= k < frame_size() implies drawn(once, sprite, x, y)[k] == fb[k] by {
        lemma_toggled_flips(fb, sprite, x, y, m, k);
        lemma_toggled_flips(once, sprite, x, y, m, k);
    }
    assert(drawn(once, sprite, x, y) =~= fb);
}

/// Bit `i` of row `r` of a sprite drawn at `(x, y)` flips the pixel at column
/// `(x + i) % 64`, row `(y + r) % 32`, and only where the bit is set. A sprite of at most 32
/// rows touches each pixel at most once.
pub proof fn lemma_draw_flips_wrapped_pixel(
    fb: Seq<bool>,
    sprite: Seq<u8>,
    x: u8,
    y: u8,
    r: int,
    i: int,
)
    requires
        fb.len() == frame_size(),
        sprite.len() <= 32,
        0 <= r < sprite.len(),
        0 <= i < 8,
    ensures
        drawn(fb, sprite, x, y)[pixel_index(x + i, y + r)] == (fb[pixel_index(x + i, y + r)]
            != row_bit(sprite[r], i)),
{
    let k = pixel_index(x + i, y + r);
    lemma_pixel_index_in_frame(x + i, y + r);
    lemma_toggled_flips(fb, sprite, x, y, 8 * sprite.len(), k);
    lemma_flips_one_pixel(sprite, x, y, r, i, 8 * sprite.len());
}

/// A surface after it carries out `cmds` in order.
pub open spec fn replayed(surface: Seq<bool>, cmds: Seq<RenderCommand>) -> Seq<bool>
    decreases cmds.len(),
{
    if cmds.len() == 0 {
        surface
    } else {
        let prev = replayed(surface, cmds.drop_last());
        match cmds.last() {
            RenderCommand::Clear => Seq::new(prev.len(), |k: int| false),
            RenderCommand::SetPixel { x, y, on } => prev.update(pixel_index(x as int, y as int), on),
            RenderCommand::Present => prev,
        }
    }
}

proof fn lemma_replayed_updates(fb: Seq<bool>, sprite: Seq<u8>, x: u8, y: u8, m: nat)
    requires
        fb.len() == frame_size(),
    ensures
        replayed(fb, pixel_updates(fb, sprite, x, y, m)) == toggled(fb, sprite, x, y, m),
    decreases m,
{
    if m > 0 {
        let r = (m - 1) / 8;
        let i = (m - 1) % 8;
        let k = pixel_index(x + i, y + r);
        let cmds = pixel_updates(fb, sprite, x, y, m);
        lemma_replayed_updates(fb, sprite, x, y, (m - 1) as nat);
        lemma_toggled_len(fb, sprite, x, y, (m - 1) as nat);
        lemma_pixel_index_in_frame(x + i, y + r);
        assert(cmds.drop_last() == pixel_updates(fb, sprite, x, y, (m - 1) as nat));
        let cx = ((x + i) % 64) as u8;
        let cy = ((y + r) % 32) as u8;
        assert(pixel_index(cx as int, cy as int) == k);
        assert(replayed(fb, cmds) =~= toggled(fb, sprite, x, y, m));
    }
}

/// A surface that mirrors the framebuffer and carries out the commands of a draw mirrors
/// the framebuffer after the draw.
pub proof fn lemma_draw_commands_mirror(fb: Seq<bool>, sprite: Seq<u8>, x: u8, y: u8)
    requires
        fb.len() == frame_size(),
    ensures
        replayed(fb, draw_commands(fb, sprite, x, y)) == drawn(fb, sprite, x, y),
{
    let cmds = draw_commands(fb, sprite, x, y);
    lemma_replayed_updates(fb, sprite, x, y, 8 * sprite.len());
    assert(cmds.drop_last() == pixel_updates(fb, sprite, x, y, 8 * sprite.len()));
}

} // verus!
