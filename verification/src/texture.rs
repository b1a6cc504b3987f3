//! The debug texture: a fixed 8 by 8 RGBA test pattern used to visualize
//! texture-coordinate orientation.
//!
//! Row 0 is a fixed eight-colour palette, 4 bytes per texel; every later
//! row is the row above rotated right by one texel, giving diagonal colour
//! bands. The output is the raw row-major pixel buffer, 256 bytes.

use vstd::prelude::*;
use vstd::arithmetic::div_mod::lemma_fundamental_div_mod_converse;

verus! {

/// The fixed palette of row 0: eight RGBA texels, 32 bytes.
pub open spec fn palette_spec() -> Seq<u8> {
    seq![
        255u8, 102, 159, 255,
        255, 159, 102, 255,
        236, 255, 102, 255,
        121, 255, 102, 255,
        102, 255, 198, 255,
        102, 198, 255, 255,
        121, 102, 255, 255,
        236, 102, 255, 255,
    ]
}

/// Byte `j` of the palette after `y` rotations right by one texel
/// (4 bytes each), for `0 <= y <= 8` and `0 <= j < 32`.
pub open spec fn rotated_palette_byte(y: int, j: int) -> u8 {
    if j >= 4 * y {
        palette_spec()[j - 4 * y]
    } else {
        palette_spec()[j - 4 * y + 32]
    }
}

/// Byte `i` of the 256-byte texture buffer: row `i / 32` holds the palette
/// rotated once per preceding row.
pub open spec fn texture_byte(i: int) -> u8 {
    rotated_palette_byte(i / 32, i % 32)
}

/// The whole 8 by 8 RGBA debug texture, row-major, 4 bytes per texel.
pub open spec fn debug_texture_seq() -> Seq<u8> {
    Seq::new(256, |i: int| texture_byte(i))
}

/// Byte `j` of texture row `y`; a helper for stating row-to-row facts.
pub open spec fn texture_row_byte(y: int, j: int) -> u8 {
    debug_texture_seq()[32 * y + j]
}

/// Builds the palette of row 0.
fn starting_palette() -> (p: Vec<u8>)
    ensures
        p@ == palette_spec(),
{
    let mut p: Vec<u8> = Vec::new();
    p.push(255);
    p.push(102);
    p.push(159);
    p.push(255);
    p.push(255);
    p.push(159);
    p.push(102);
    p.push(255);
    p.push(236);
    p.push(255);
    p.push(102);
    p.push(255);
    p.push(121);
    p.push(255);
    p.push(102);
    p.push(255);
    p.push(102);
    p.push(255);
    p.push(198);
    p.push(255);
    p.push(102);
    p.push(198);
    p.push(255);
    p.push(255);
    p.push(121);
    p.push(102);
    p.push(255);
    p.push(255);
    p.push(236);
    p.push(102);
    p.push(255);
    p.push(255);
    proof {
        assert(p@ =~= palette_spec());
    }
    p
}

/// Rotates a 32-byte palette right by one texel: byte `j` of the result is
/// byte `j - 4` of the input, wrapping around.
fn rotate_right_texel(p: &Vec<u8>) -> (q: Vec<u8>)
    requires
        p@.len() == 32,
    ensures
        q@.len() == 32,
        forall|j: int|
            0 <= j < 32 ==> q@[j] == (if j >= 4 {
                p@[j - 4]
            } else {
                p@[j + 28]
            }),
{
    let mut q: Vec<u8> = Vec::new();
    let mut j: usize = 0;
    while j < 32
        invariant
            p@.len() == 32,
            j <= 32,
            q@.len() == j,
            forall|t: int|
                0 <= t < j ==> q@[t] == (if t >= 4 {
                    p@[t - 4]
                } else {
                    p@[t + 28]
                }),
        decreases 32 - j,
    {
        if j >= 4 {
            q.push(p[j - 4]);
        } else {
            q.push(p[j + 28]);
        }
        j = j + 1;
    }
    q
}

/// Builds the 8 by 8 RGBA debug texture: 256 bytes, row-major. Row 0 is
/// the fixed palette; each later row is the row above rotated right by one
/// texel.
pub fn make_debug_texture() -> (t: Vec<u8>)
    ensures
        t@ == debug_texture_seq(),
        t@.len() == 256,
{
    let mut palette = starting_palette();
    let mut t: Vec<u8> = Vec::new();
    let mut y: usize = 0;
    while y < 8
        invariant
            y <= 8,
            palette@.len() == 32,
            t@.len() == 32 * y,
            forall|j: int| 0 <= j < 32 ==> palette@[j] == rotated_palette_byte(y as int, j),
            forall|i: int| 0 <= i < t@.len() ==> t@[i] == texture_byte(i),
        decreases 8 - y,
    {
        let mut j: usize = 0;
        while j < 32
            invariant
                y < 8,
                j <= 32,
                palette@.len() == 32,
                t@.len() == 32 * y + j,
                forall|jj: int| 0 <= jj < 32 ==> palette@[jj] == rotated_palette_byte(y as int, jj),
                forall|i: int| 0 <= i < t@.len() ==> t@[i] == texture_byte(i),
            decreases 32 - j,
        {
            t.push(palette[j]);
            proof {
                lemma_fundamental_div_mod_converse(
                    32 * (y as int) + j as int,
                    32,
                    y as int,
                    j as int,
                );
            }
            j = j + 1;
        }
        let rotated = rotate_right_texel(&palette);
        proof {
            assert forall|jj: int| 0 <= jj < 32 implies rotated@[jj] == rotated_palette_byte(
                y as int + 1,
                jj,
            ) by {
                assert(palette@[jj] == rotated_palette_byte(y as int, jj));
                if jj >= 4 {
                    assert(palette@[jj - 4] == rotated_palette_byte(y as int, jj - 4));
                } else {
                    assert(palette@[jj + 28] == rotated_palette_byte(y as int, jj + 28));
                }
            }
        }
        palette = rotated;
        y = y + 1;
    }
    proof {
        assert(t@ =~= debug_texture_seq());
    }
    t
}

/// The debug texture's row law: the buffer is exactly 256 bytes — 8 rows
/// of 8 RGBA texels — row 0 is the fixed palette, and each later row is
/// the previous row rotated right by one texel, wrapping around.
pub proof fn lemma_texture_rows_rotate()
    ensures
        debug_texture_seq().len() == 256,
        forall|j: int| 0 <= j < 32 ==> #[trigger] texture_row_byte(0, j) == palette_spec()[j],
        forall|y: int, j: int|
            1 <= y < 8 && 0 <= j < 32 ==> #[trigger] texture_row_byte(y, j) == texture_row_byte(
                y - 1,
                if j >= 4 {
                    j - 4
                } else {
                    j + 28
                },
            ),
{
    assert forall|j: int| 0 <= j < 32 implies #[trigger] texture_row_byte(0, j) == palette_spec()[j]
        by {
        lemma_fundamental_div_mod_converse(j, 32, 0, j);
    }
    assert forall|y: int, j: int| 1 <= y < 8 && 0 <= j < 32 implies #[trigger] texture_row_byte(
        y,
        j,
    ) == texture_row_byte(
        y - 1,
        if j >= 4 {
            j - 4
        } else {
            j + 28
        },
    ) by {
        lemma_fundamental_div_mod_converse(32 * y + j, 32, y, j);
        if j >= 4 {
            lemma_fundamental_div_mod_converse(32 * (y - 1) + (j - 4), 32, y - 1, j - 4);
        } else {
            lemma_fundamental_div_mod_converse(32 * (y - 1) + (j + 28), 32, y - 1, j + 28);
        }
    }
}

} // verus!
