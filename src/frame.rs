use vstd::prelude::*;
use vstd::arithmetic::div_mod::lemma_fundamental_div_mod_converse;

use crate::graphics::{
    pixel_index, put_pixel, CanvasColour, PixelBuf, PixelColour, CANVAS_HEIGHT, CANVAS_WIDTH,
    SCREEN_HEIGHT, SCREEN_WIDTH,
};

verus! {

/// Number of pixels in one frame.
pub open spec fn frame_len() -> int {
    SCREEN_WIDTH * SCREEN_HEIGHT
}

/// True when `(x, y)` lies on the canvas, whose coordinates run over
/// `-CANVAS_WIDTH / 2 .. CANVAS_WIDTH / 2` and `-CANVAS_HEIGHT / 2 .. CANVAS_HEIGHT / 2`.
pub open spec fn in_canvas(x: int, y: int) -> bool {
    &&& -(CANVAS_WIDTH / 2) <= x < CANVAS_WIDTH / 2
    &&& -(CANVAS_HEIGHT / 2) <= y < CANVAS_HEIGHT / 2
}

/// Canvas `x` of the pixel at buffer index `i`.
pub open spec fn canvas_x_of(i: int) -> int {
    CANVAS_WIDTH / 2 - 1 - i % (SCREEN_WIDTH as int)
}

/// Canvas `y` of the pixel at buffer index `i`.
pub open spec fn canvas_y_of(i: int) -> int {
    CANVAS_HEIGHT / 2 - 1 - i / (SCREEN_WIDTH as int)
}

/// True when pixel `p` shows a colour that `shade` may return for `(x, y)`.
pub open spec fn shaded<F: Fn(i32, i32) -> CanvasColour>(
    shade: F,
    x: int,
    y: int,
    p: PixelColour,
) -> bool {
    exists|c: CanvasColour| #[trigger] shade.ensures((x as i32, y as i32), c) && p@ == c.channels()
}

/// True when `after` is `before` with every pixel of the frame shaded for
/// its canvas coordinate, and every element past the frame left as it was.
pub open spec fn frame_rendered<F: Fn(i32, i32) -> CanvasColour>(
    shade: F,
    before: Seq<PixelColour>,
    after: Seq<PixelColour>,
) -> bool {
    &&& after.len() == before.len()
    &&& forall|i: int|
        0 <= i < after.len() ==> if i < frame_len() {
            shaded(shade, canvas_x_of(i), canvas_y_of(i), #[trigger] after[i])
        } else {
            after[i] == before[i]
        }
}

/// Each canvas coordinate has its own buffer index inside the frame, and the
/// index gives the coordinate back.
pub proof fn lemma_canvas_to_index(x: int, y: int)
    requires
        in_canvas(x, y),
    ensures
        0 <= pixel_index(x, y) < frame_len(),
        canvas_x_of(pixel_index(x, y)) == x,
        canvas_y_of(pixel_index(x, y)) == y,
{
    let col = CANVAS_WIDTH / 2 - 1 - x;
    let row = CANVAS_HEIGHT / 2 - 1 - y;
    assert(pixel_index(x, y) == row * 600 + col);
    lemma_fundamental_div_mod_converse(pixel_index(x, y), 600, row, col);
    assert(0 <= row * 600 <= 599 * 600) by (nonlinear_arith)
        requires
            0 <= row <= 599,
    ;
}

/// Each buffer index inside the frame is the index of one canvas coordinate.
pub proof fn lemma_index_to_canvas(i: int)
    requires
        0 <= i < frame_len(),
    ensures
        in_canvas(canvas_x_of(i), canvas_y_of(i)),
        pixel_index(canvas_x_of(i), canvas_y_of(i)) == i,
{
    assert(i == (i / 600) * 600 + i % 600) by (nonlinear_arith);
    assert(0 <= i % 600 < 600);
    assert(0 <= i / 600 < 600) by (nonlinear_arith)
        requires
            0 <= i < 360000,
    ;
}

/// Fills the frame: the pixel of each canvas coordinate `(x, y)` gets the
/// colour `shade(x, y)`. Elements past the frame are left as they were.
pub fn update<F: Fn(i32, i32) -> CanvasColour>(screen: &mut PixelBuf, shade: F)
    requires
        forall|x: i32, y: i32| in_canvas(x as int, y as int) ==> #[trigger] shade.requires((x, y)),
    ensures
        frame_rendered(shade, old(screen)@, final(screen)@),
{
    let ghost before = screen@;
    let mut x: i32 = -(CANVAS_WIDTH / 2);
    while x < CANVAS_WIDTH / 2
        invariant
            -(CANVAS_WIDTH / 2) <= x <= CANVAS_WIDTH / 2,
            forall|x: i32, y: i32| in_canvas(x as int, y as int) ==> #[trigger] shade.requires((x, y)),
            screen@.len() == before.len(),
            forall|i: int|
                0 <= i < screen@.len() ==> if i < frame_len() && canvas_x_of(i) < x {
                    shaded(shade, canvas_x_of(i), canvas_y_of(i), #[trigger] screen@[i])
                } else {
                    screen@[i] == before[i]
                },
        decreases CANVAS_WIDTH / 2 - x,
    {
        let mut y: i32 = -(CANVAS_HEIGHT / 2);
        while y < CANVAS_HEIGHT / 2
            invariant
                -(CANVAS_WIDTH / 2) <= x < CANVAS_WIDTH / 2,
                -(CANVAS_HEIGHT / 2) <= y <= CANVAS_HEIGHT / 2,
                forall|x: i32, y: i32| in_canvas(x as int, y as int) ==> #[trigger] shade.requires((x, y)),
                screen@.len() == before.len(),
                forall|i: int|
                    0 <= i < screen@.len() ==> if i < frame_len() && (canvas_x_of(i) < x || (
                    canvas_x_of(i) == x && canvas_y_of(i) < y)) {
                        shaded(shade, canvas_x_of(i), canvas_y_of(i), #[trigger] screen@[i])
                    } else {
                        screen@[i] == before[i]
                    },
            decreases CANVAS_HEIGHT / 2 - y,
        {
            let colour = shade(x, y);
            let ghost prev = screen@;
            put_pixel(screen, x, y, colour);
            proof {
                let k = pixel_index(x as int, y as int);
                lemma_canvas_to_index(x as int, y as int);
                if k < screen@.len() {
                    assert(screen@[k]@ == colour.channels());
                    assert((x as int) as i32 == x && (y as int) as i32 == y);
                    assert(shade.ensures(((x as int) as i32, (y as int) as i32), colour));
                    assert(shaded(shade, x as int, y as int, screen@[k]));
                }
                assert forall|i: int| 0 <= i < screen@.len() && i != k implies #[trigger] screen@[i]
                    == prev[i] by {}
                assert forall|i: int| 0 <= i < screen@.len() && i < frame_len() && i != k
                    && canvas_x_of(i) == x implies canvas_y_of(i) != y by {
                    lemma_index_to_canvas(i);
                }
            }
            y = y + 1;
        }
        x = x + 1;
    }
}

/// Rendering one scene twice gives the same frame: when `shade` returns one
/// colour for each coordinate, two frames that `update` filled with it hold
/// the same pixels.
pub proof fn lemma_update_deterministic<F: Fn(i32, i32) -> CanvasColour>(
    shade: F,
    before1: Seq<PixelColour>,
    after1: Seq<PixelColour>,
    before2: Seq<PixelColour>,
    after2: Seq<PixelColour>,
)
    requires
        forall|x: i32, y: i32, c1: CanvasColour, c2: CanvasColour|
            #![trigger shade.ensures((x, y), c1), shade.ensures((x, y), c2)]
            shade.ensures((x, y), c1) && shade.ensures((x, y), c2) ==> c1 == c2,
        before1.len() == frame_len(),
        before2.len() == frame_len(),
        frame_rendered(shade, before1, after1),
        frame_rendered(shade, before2, after2),
    ensures
        after1 == after2,
{
    assert forall|i: int| 0 <= i < after1.len() implies after1[i] == after2[i] by {
        assert(shaded(shade, canvas_x_of(i), canvas_y_of(i), after1[i]));
        assert(shaded(shade, canvas_x_of(i), canvas_y_of(i), after2[i]));
        let xy = (canvas_x_of(i) as i32, canvas_y_of(i) as i32);
        let c1 = choose|c: CanvasColour| shade.ensures(xy, c) && after1[i]@ == c.channels();
        let c2 = choose|c: CanvasColour| shade.ensures(xy, c) && after2[i]@ == c.channels();
        assert(c1 == c2);
        assert(after1[i][0] == after2[i][0]);
        assert(after1[i][1] == after2[i][1]);
        assert(after1[i][2] == after2[i][2]);
        assert(after1[i] =~= after2[i]);
    }
    assert(after1 =~= after2);
}

/// Red, green, blue and alpha byte `i` of a display surface after `render`,
/// where `before` is what it held.
pub open spec fn blitted_byte(frame: Seq<PixelColour>, before: Seq<u8>, i: int) -> u8 {
    let p = i / 4;
    if p < before.len() / 4 && p < frame.len() {
        if i % 4 < 3 {
            frame[p]@[i % 4]
        } else {
            255
        }
    } else {
        before[i]
    }
}

/// Copies the frame onto a display surface of four bytes per pixel (red,
/// green, blue, then an opaque alpha), row-major with the same row width.
/// Surface pixels past the frame, and a trailing partial pixel, are left as
/// they were.
pub fn render(framebuffer: &PixelBuf, render_buffer: &mut [u8])
    ensures
        final(render_buffer)@.len() == old(render_buffer)@.len(),
        forall|i: int|
            0 <= i < old(render_buffer)@.len() ==> #[trigger] final(render_buffer)@[i]
                == blitted_byte(framebuffer@, old(render_buffer)@, i),
{
    let ghost before = render_buffer@;
    let len: usize = render_buffer.len();
    let pixels: usize = len / 4;
    let mut p: usize = 0;
    while p < pixels
        invariant
            len == before.len(),
            pixels == len / 4,
            p <= pixels,
            render_buffer@.len() == before.len(),
            forall|i: int|
                0 <= i < before.len() ==> #[trigger] render_buffer@[i] == if i / 4 < p {
                    blitted_byte(framebuffer@, before, i)
                } else {
                    before[i]
                },
        decreases pixels - p,
    {
        assert(4 * p + 3 < render_buffer@.len()) by (nonlinear_arith)
            requires
                p < pixels,
                pixels == len / 4,
                len == render_buffer@.len(),
        ;
        if p < framebuffer.len() {
            let colour: PixelColour = framebuffer[p];
            render_buffer[4 * p] = colour[0];
            render_buffer[4 * p + 1] = colour[1];
            render_buffer[4 * p + 2] = colour[2];
            render_buffer[4 * p + 3] = 255;
        }
        p = p + 1;
    }
}

} // verus!
