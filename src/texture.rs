//! Addressing into the packed texture atlas.
//!
//! The atlas is a flat byte pool (`ts`) holding three bytes per texel, and a
//! parameter table (`tps`) holding, for each texture, its first byte, its
//! width and its height, three `u32` per texture.
use vstd::prelude::*;

verus! {

/// Slot value of a material or sky that names no texture.
pub const NO_TEXTURE: u32 = 0;

/// First byte of texture `tex` in the pool.
pub open spec fn start_of(tps: Seq<u32>, tex: int) -> int {
    tps[3 * tex] as int
}

/// Width of texture `tex`, in texels.
pub open spec fn width_of(tps: Seq<u32>, tex: int) -> int {
    tps[3 * tex + 1] as int
}

/// Height of texture `tex`, in texels.
pub open spec fn height_of(tps: Seq<u32>, tex: int) -> int {
    tps[3 * tex + 2] as int
}

/// Number of textures the table describes.
pub open spec fn texture_count(tps: Seq<u32>) -> int {
    tps.len() as int / 3
}

/// Texture `tex` lies wholly inside a pool of `pool_len` bytes.
pub open spec fn texture_fits(tps: Seq<u32>, tex: int, pool_len: int) -> bool {
    start_of(tps, tex) + 3 * (width_of(tps, tex) * height_of(tps, tex)) <= pool_len
}

/// Texture `tex` lies wholly inside a pool of `pool_len` bytes, and its texel
/// offsets fit in a `u32`.
pub open spec fn texture_ok(tps: Seq<u32>, tex: int, pool_len: int) -> bool {
    &&& texture_fits(tps, tex, pool_len)
    &&& 3 * (width_of(tps, tex) * height_of(tps, tex)) <= u32::MAX
}

/// One past the last byte of texture `tex`.
pub open spec fn end_of(tps: Seq<u32>, tex: int) -> int {
    start_of(tps, tex) + 3 * (width_of(tps, tex) * height_of(tps, tex))
}

/// Textures `a` and `b` share no byte of the pool.
pub open spec fn disjoint(tps: Seq<u32>, a: int, b: int) -> bool {
    end_of(tps, a) <= start_of(tps, b) || end_of(tps, b) <= start_of(tps, a)
}

/// The table is a whole number of entries, every texture is sound, and no
/// two textures overlap.
pub open spec fn table_sound(tps: Seq<u32>, pool_len: int) -> bool {
    &&& tps.len() % 3 == 0
    &&& forall|t: int| 0 <= t < texture_count(tps) ==> #[trigger] texture_ok(tps, t, pool_len)
    &&& forall|a: int, b: int|
        0 <= a < b < texture_count(tps) ==> #[trigger] disjoint(tps, a, b)
}

/// Index of the texel at column `x`, row `y` of a texture `w` texels wide.
pub open spec fn texel_index(x: int, y: int, w: int) -> int {
    y * w + x
}

/// The texture that a material or sky slot refers to: slot 0 is none, slot
/// `n > 0` is texture `n - 1`.
pub open spec fn slot_texture(slot: u32) -> Option<u32> {
    if slot == 0 {
        None
    } else {
        Some((slot - 1) as u32)
    }
}

/// A texel inside a texture of a sound table can be sampled: the
/// preconditions of `tx_get_sample` and `tx_get_scalar` hold for it.
pub proof fn lemma_texel_in_pool(tps: Seq<u32>, pool_len: int, tex: int, x: int, y: int)
    requires
        table_sound(tps, pool_len),
        0 <= tex < texture_count(tps),
        0 <= x < width_of(tps, tex),
        0 <= y < height_of(tps, tex),
    ensures
        3 * tex + 2 < tps.len(),
        3 * texel_index(x, y, width_of(tps, tex)) <= u32::MAX,
        start_of(tps, tex) + 3 * texel_index(x, y, width_of(tps, tex)) + 2 < pool_len,
{
    assert(texture_ok(tps, tex, pool_len));
    let w = width_of(tps, tex);
    let h = height_of(tps, tex);
    assert(y * w + x < w * h) by (nonlinear_arith)
        requires
            0 <= x < w,
            0 <= y < h,
    {
        assert(y * w + x < y * w + w);
        assert(y * w + w == (y + 1) * w);
        assert((y + 1) * w <= h * w);
    }
}

/// One past the last byte of texture `t`, without overflow.
fn texture_end(tps: &[u32], t: usize) -> (r: u128)
    requires
        3 * t + 2 < tps@.len(),
    ensures
        r == end_of(tps@, t as int),
{
    let n: usize = tps.len();
    assert(3 * t + 2 < n);
    let start: u128 = tps[3 * t] as u128;
    let w: u128 = tps[3 * t + 1] as u128;
    let h: u128 = tps[3 * t + 2] as u128;
    assert(w * h <= u32::MAX * u32::MAX) by (nonlinear_arith)
        requires
            w <= u32::MAX,
            h <= u32::MAX,
    ;
    start + 3 * (w * h)
}

/// Whether the table is sound for a pool of `pool_len` bytes: whole
/// entries, every texture inside the pool with texel offsets that fit in a
/// `u32`, and no two textures overlapping.
pub fn texture_table_sound(tps: &[u32], pool_len: usize) -> (r: bool)
    ensures
        r == table_sound(tps@, pool_len as int),
{
    let n: usize = tps.len();
    if n % 3 != 0 {
        return false;
    }
    let count: usize = n / 3;
    let mut t: usize = 0;
    while t < count
        invariant
            n == tps@.len(),
            n % 3 == 0,
            count == texture_count(tps@),
            t <= count,
            forall|i: int| 0 <= i < t ==> #[trigger] texture_ok(tps@, i, pool_len as int),
        decreases count - t,
    {
        let start: u128 = tps[3 * t] as u128;
        let end: u128 = texture_end(tps, t);
        if end - start > u32::MAX as u128 || end > pool_len as u128 {
            assert(!texture_ok(tps@, t as int, pool_len as int));
            return false;
        }
        t = t + 1;
    }
    let mut a: usize = 0;
    while a < count
        invariant
            n == tps@.len(),
            n % 3 == 0,
            count == texture_count(tps@),
            a <= count,
            forall|i: int| 0 <= i < count ==> #[trigger] texture_ok(tps@, i, pool_len as int),
            forall|i: int, j: int| 0 <= i < a && i < j < count ==> #[trigger] disjoint(tps@, i, j),
        decreases count - a,
    {
        let start_a: u128 = tps[3 * a] as u128;
        let end_a: u128 = texture_end(tps, a);
        let mut b: usize = a + 1;
        while b < count
            invariant
                n == tps@.len(),
                n % 3 == 0,
                count == texture_count(tps@),
                a < count,
                a < b <= count,
                start_a == start_of(tps@, a as int),
                end_a == end_of(tps@, a as int),
                forall|i: int| 0 <= i < count ==> #[trigger] texture_ok(tps@, i, pool_len as int),
                forall|i: int, j: int| 0 <= i < a && i < j < count ==> #[trigger] disjoint(tps@, i, j),
                forall|j: int| a < j < b ==> #[trigger] disjoint(tps@, a as int, j),
            decreases count - b,
        {
            let start_b: u128 = tps[3 * b] as u128;
            let end_b: u128 = texture_end(tps, b);
            if !(end_a <= start_b || end_b <= start_a) {
                assert(!disjoint(tps@, a as int, b as int));
                return false;
            }
            b = b + 1;
        }
        a = a + 1;
    }
    true
}

/// Resolves a texture slot: `None` for slot 0, texture `slot - 1` otherwise.
pub fn texture_index(slot: u32) -> (r: Option<u32>)
    ensures
        r == slot_texture(slot),
{
    if slot == NO_TEXTURE {
        None
    } else {
        Some(slot - 1)
    }
}

/// First byte of texture `tex` in the pool.
pub fn tx_get_start(tex: u32, tps: &[u32]) -> (r: usize)
    requires
        3 * tex < tps@.len(),
    ensures
        r == start_of(tps@, tex as int),
{
    let n: usize = tps.len();
    assert(n == tps@.len());
    tps[tex as usize * 3] as usize
}

/// Width of texture `tex`.
pub fn tx_get_width(tex: u32, tps: &[u32]) -> (r: u32)
    requires
        3 * tex + 1 < tps@.len(),
    ensures
        r == width_of(tps@, tex as int),
{
    let n: usize = tps.len();
    assert(n == tps@.len());
    tps[tex as usize * 3 + 1]
}

/// Height of texture `tex`.
pub fn tx_get_height(tex: u32, tps: &[u32]) -> (r: u32)
    requires
        3 * tex + 2 < tps@.len(),
    ensures
        r == height_of(tps@, tex as int),
{
    let n: usize = tps.len();
    assert(n == tps@.len());
    tps[tex as usize * 3 + 2]
}

/// The three channel bytes of texel (`x`, `y`) of texture `tex`, whose width
/// is `w`: the bytes at `start + 3 * (y * w + x)` and the two after it.
pub fn tx_get_sample(tex: u32, tps: &[u32], ts: &[u8], x: u32, y: u32, w: u32) -> (r: (u8, u8, u8))
    requires
        3 * tex < tps@.len(),
        3 * texel_index(x as int, y as int, w as int) <= u32::MAX,
        start_of(tps@, tex as int) + 3 * texel_index(x as int, y as int, w as int) + 2 < ts@.len(),
    ensures
        ({
            let o = start_of(tps@, tex as int) + 3 * texel_index(x as int, y as int, w as int);
            r == (ts@[o], ts@[o + 1], ts@[o + 2])
        }),
{
    assert(y * w <= y * w + x);
    let texel: u32 = (y * w + x) * 3;
    let n: usize = ts.len();
    assert(n == ts@.len());
    let offset: usize = tx_get_start(tex, tps) + texel as usize;
    (ts[offset], ts[offset + 1], ts[offset + 2])
}

/// The value of a scalar map (roughness, metallic) at texel (`x`, `y`) of
/// texture `tex`, whose width is `w`: the first channel of that texel, the
/// byte at `start + 3 * (y * w + x)`.
pub fn tx_get_scalar(tex: u32, tps: &[u32], ts: &[u8], x: u32, y: u32, w: u32) -> (r: u8)
    requires
        3 * tex < tps@.len(),
        3 * texel_index(x as int, y as int, w as int) <= u32::MAX,
        start_of(tps@, tex as int) + 3 * texel_index(x as int, y as int, w as int) < ts@.len(),
    ensures
        r == ts@[start_of(tps@, tex as int) + 3 * texel_index(x as int, y as int, w as int)],
{
    assert(y * w <= y * w + x);
    let texel: u32 = (y * w + x) * 3;
    let n: usize = ts.len();
    assert(n == ts@.len());
    let offset: usize = tx_get_start(tex, tps) + texel as usize;
    ts[offset]
}

} // verus!
