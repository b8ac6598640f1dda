//! The 16 by 16 placeholder icon: a purple ghost on a transparent ground,
//! as RGBA bytes row by row.
use vstd::prelude::*;

verus! {

/// Whether pixel `(x, y)` belongs to the ghost: a round head of radius 6
/// centred at (8, 6), a body below it, and a wavy hem.
pub open spec fn in_ghost(x: int, y: int) -> bool {
    let dx = x - 8;
    let dy = y - 6;
    let in_head = dx * dx + dy * dy < 36;
    let in_body = 6 <= y <= 13 && 3 <= x <= 12;
    let in_wave = 12 <= y <= 15 && 3 <= x <= 12 && ((x + y) % 3 != 0 || y < 14);
    in_head || in_body || in_wave
}

/// Channel `c` of the ghost's colour, #8b5cf6, opaque.
pub open spec fn purple(c: int) -> u8 {
    if c == 0 {
        0x8b
    } else if c == 1 {
        0x5c
    } else if c == 2 {
        0xf6
    } else {
        0xff
    }
}

/// Byte `b` of the icon: four bytes per pixel, sixteen pixels per row.
pub open spec fn icon_byte(b: int) -> u8 {
    let p = b / 4;
    if in_ghost(p % 16, p / 16) {
        purple(b % 4)
    } else {
        0
    }
}

proof fn lemma_byte_of_pixel(p: int, c: int)
    requires
        0 <= p,
        0 <= c < 4,
    ensures
        (4 * p + c) / 4 == p,
        (4 * p + c) % 4 == c,
{
    assert((4 * p + c) / 4 == p && (4 * p + c) % 4 == c) by (nonlinear_arith)
        requires
            0 <= p,
            0 <= c < 4,
    ;
}

/// Builds the placeholder icon.
pub fn create_placeholder_icon() -> (r: Vec<u8>)
    ensures
        r@.len() == 16 * 16 * 4,
        forall|b: int| 0 <= b < r@.len() ==> r@[b] == icon_byte(b),
{
    let mut data: Vec<u8> = Vec::new();
    let mut p: u32 = 0;
    while p < 256
        invariant
            p <= 256,
            data@.len() == 4 * p,
            forall|b: int| 0 <= b < data@.len() ==> data@[b] == icon_byte(b),
        decreases 256 - p,
    {
        let x: i32 = (p % 16) as i32;
        let y: i32 = (p / 16) as i32;
        let dx = x - 8;
        let dy = y - 6;
        proof {
            assert(0 <= dx * dx <= 64 && 0 <= dy * dy <= 100) by (nonlinear_arith)
                requires
                    -8 <= dx <= 7,
                    -6 <= dy <= 9,
            ;
        }
        let in_head = dx * dx + dy * dy < 36;
        let in_body = 6 <= y && y <= 13 && 3 <= x && x <= 12;
        let in_wave = 12 <= y && y <= 15 && 3 <= x && x <= 12 && ((x + y) % 3 != 0 || y < 14);
        let ghost_pixel = in_head || in_body || in_wave;
        let ghost before = data@;
        if ghost_pixel {
            data.push(0x8b);
            data.push(0x5c);
            data.push(0xf6);
            data.push(0xff);
        } else {
            data.push(0);
            data.push(0);
            data.push(0);
            data.push(0);
        }
        proof {
            assert(ghost_pixel == in_ghost(p as int % 16, p as int / 16));
            assert forall|b: int| 0 <= b < data@.len() implies data@[b] == icon_byte(b) by {
                if b >= 4 * p {
                    lemma_byte_of_pixel(p as int, b - 4 * p);
                } else {
                    assert(data@[b] == before[b]);
                }
            }
        }
        p += 1;
    }
    data
}

} // verus!
