use vstd::prelude::*;
use crate::units::{Ratio, MICRO};

verus! {

/// Largest texture dimension the model accepts, a documented limit of the
/// GPU image machinery.
pub const MAX_TEXTURE_DIM: u32 = 0x4000;

/// One texel: four 8-bit channels.
#[derive(Clone, Copy, PartialEq, Eq, Structural, Debug)]
pub struct Rgba8 {
    pub r: u8,
    pub g: u8,
    pub b: u8,
    pub a: u8,
}

/// Why raw pixel data was rejected.
#[derive(Clone, Copy, PartialEq, Eq, Structural, Debug)]
pub enum TextureError {
    /// A dimension is zero or exceeds `MAX_TEXTURE_DIM`.
    BadDimensions,
    /// The byte length is not `width * height * 4`.
    WrongLength,
}

/// The texture data the sampling model reads: an immutable grid of
/// texels. The GPU image, its view and its sampler are derived from this
/// outside the crate; nothing here mutates a texture after creation.
pub struct Texture {
    pub width: u32,
    pub height: u32,
    pub texels: Vec<Rgba8>,
}

/// The texel unpacked from four consecutive bytes of an RGBA byte stream.
pub open spec fn spec_texel_from_bytes(bytes: Seq<u8>, i: int) -> Rgba8 {
    Rgba8 {
        r: bytes[4 * i],
        g: bytes[4 * i + 1],
        b: bytes[4 * i + 2],
        a: bytes[4 * i + 3],
    }
}

impl Texture {
    /// Dimensions are positive, within the GPU limit, and the grid holds
    /// exactly one texel per pixel.
    pub open spec fn wf(self) -> bool {
        &&& 0 < self.width <= MAX_TEXTURE_DIM
        &&& 0 < self.height <= MAX_TEXTURE_DIM
        &&& self.texels@.len() == self.width * self.height
    }

    /// The texel at `(x, y)`, rows bottom to top as uploaded.
    pub open spec fn spec_texel_at(self, x: int, y: int) -> Rgba8 {
        self.texels@[y * self.width + x]
    }

    /// Builds a texture from raw RGBA bytes, four bytes per pixel in row
    /// order. Succeeds exactly when both dimensions are positive and
    /// within the GPU limit and the byte length matches the dimensions.
    pub fn from_bytes(width: u32, height: u32, bytes: &Vec<u8>) -> (r: Result<
        Texture,
        TextureError,
    >)
        ensures
            r is Ok <==> (0 < width <= MAX_TEXTURE_DIM && 0 < height <= MAX_TEXTURE_DIM
                && bytes@.len() == width * height * 4),
            r matches Err(TextureError::BadDimensions) <==> !(0 < width <= MAX_TEXTURE_DIM && 0
                < height <= MAX_TEXTURE_DIM),
            r matches Ok(t) ==> {
                &&& t.wf()
                &&& t.width == width
                &&& t.height == height
                &&& forall|i: int|
                    0 <= i < t.texels@.len() ==> #[trigger] t.texels@[i] == spec_texel_from_bytes(
                        bytes@,
                        i,
                    )
            },
    {
        if width == 0 || width > MAX_TEXTURE_DIM || height == 0 || height > MAX_TEXTURE_DIM {
            return Err(TextureError::BadDimensions);
        }
        proof {
            assert(width * height <= 0x1000_0000) by (nonlinear_arith)
                requires
                    0 < width <= 0x4000,
                    0 < height <= 0x4000,
            ;
        }
        let texel_count: usize = (width as usize) * (height as usize);
        if bytes.len() != texel_count * 4 {
            return Err(TextureError::WrongLength);
        }
        let mut texels: Vec<Rgba8> = Vec::new();
        let mut i: usize = 0;
        while i < texel_count
            invariant
                0 <= i <= texel_count,
                texel_count <= 0x1000_0000,
                texel_count == width * height,
                bytes@.len() == texel_count * 4,
                texels@.len() == i,
                forall|k: int|
                    0 <= k < i ==> #[trigger] texels@[k] == spec_texel_from_bytes(bytes@, k),
            decreases texel_count - i,
        {
            let texel = Rgba8 {
                r: bytes[4 * i],
                g: bytes[4 * i + 1],
                b: bytes[4 * i + 2],
                a: bytes[4 * i + 3],
            };
            texels.push(texel);
            i = i + 1;
        }
        Ok(Texture { width, height, texels })
    }

    /// Reads the texel at `(x, y)`.
    pub fn texel_at(&self, x: u32, y: u32) -> (r: Rgba8)
        requires
            self.wf(),
            x < self.width,
            y < self.height,
        ensures
            r == self.spec_texel_at(x as int, y as int),
    {
        proof {
            lemma_texel_index_in_bounds(
                self.width as int,
                self.height as int,
                x as int,
                y as int,
            );
            assert(y * self.width + x < 0x1000_0000) by (nonlinear_arith)
                requires
                    0 <= x < self.width <= 0x4000,
                    0 <= y < self.height <= 0x4000,
            ;
        }
        let index: usize = (y as usize) * (self.width as usize) + (x as usize);
        self.texels[index]
    }
}

/// Row-major indexing stays inside a `width x height` grid.
proof fn lemma_texel_index_in_bounds(width: int, height: int, x: int, y: int)
    requires
        0 < width,
        0 < height,
        0 <= x < width,
        0 <= y < height,
    ensures
        0 <= y * width + x < width * height,
{
    assert(0 <= y * width + x < width * height) by (nonlinear_arith)
        requires
            0 < width,
            0 < height,
            0 <= x < width,
            0 <= y < height,
    ;
}

/// A normalized texture coordinate: a well-formed rational in `[0, 1]`
/// with a bounded denominator, so sampling arithmetic stays exact.
pub open spec fn spec_coord_wf(c: Ratio) -> bool {
    &&& c.wf()
    &&& 0 <= c.num <= c.den
    &&& c.den <= 0x4000_0000
}

/// The lower tap index along one axis: the sample point `c * (dim - 1)`
/// rounded down.
pub open spec fn spec_tap_lo(c: Ratio, dim: int) -> int {
    (c.num * (dim - 1)) / (c.den as int)
}

/// The upper tap index: one past the lower tap, clamped to the edge.
pub open spec fn spec_tap_hi(c: Ratio, dim: int) -> int {
    if spec_tap_lo(c, dim) + 1 < dim {
        spec_tap_lo(c, dim) + 1
    } else {
        dim - 1
    }
}

/// The numerator of the fractional position between the two taps, over
/// the denominator `c.den`.
pub open spec fn spec_tap_frac(c: Ratio, dim: int) -> int {
    (c.num * (dim - 1)) % (c.den as int)
}

/// The bilinear blend of the four tap values `c00, c10, c01, c11` with
/// horizontal fraction `fx / ud` and vertical fraction `fy / vd`: the
/// numerator of the blended value over the denominator `ud * vd`.
pub open spec fn spec_weighted(
    c00: int,
    c10: int,
    c01: int,
    c11: int,
    fx: int,
    ud: int,
    fy: int,
    vd: int,
) -> int {
    (ud - fx) * (vd - fy) * c00 + fx * (vd - fy) * c10 + (ud - fx) * fy * c01 + fx * fy * c11
}

/// A sampled color: one exact rational per channel, each in `[0, 255]`.
#[derive(Clone, Copy, PartialEq, Eq, Structural, Debug)]
pub struct SampledColor {
    pub r: Ratio,
    pub g: Ratio,
    pub b: Ratio,
    pub a: Ratio,
}

/// Blending four equal values returns that value whatever the fractions
/// are: the four weights sum to the common denominator.
pub proof fn lemma_weighted_constant(c: int, fx: int, ud: int, fy: int, vd: int)
    ensures
        spec_weighted(c, c, c, c, fx, ud, fy, vd) == c * (ud * vd),
{
    assert((ud - fx) * (vd - fy) * c + fx * (vd - fy) * c == ud * ((vd - fy) * c))
        by (nonlinear_arith);
    assert((ud - fx) * fy * c + fx * fy * c == ud * (fy * c)) by (nonlinear_arith);
    assert(ud * ((vd - fy) * c) + ud * (fy * c) == c * (ud * vd)) by (nonlinear_arith);
}

impl Texture {
    /// Samples the texture bilinearly at the normalized coordinate
    /// `(u, v)`, clamped to the edges: the four texels around the sample
    /// point `(u * (width - 1), v * (height - 1))` are blended by the
    /// fractional position between them. Every channel of the result is
    /// exact.
    pub fn sample_bilinear(&self, u: Ratio, v: Ratio) -> (r: SampledColor)
        requires
            self.wf(),
            spec_coord_wf(u),
            spec_coord_wf(v),
        ensures
            r.r.wf() && r.g.wf() && r.b.wf() && r.a.wf(),
            r.r.den == u.den * v.den,
            r.g.den == u.den * v.den,
            r.b.den == u.den * v.den,
            r.a.den == u.den * v.den,
            0 <= r.r.num <= 255 * r.r.den,
            0 <= r.g.num <= 255 * r.g.den,
            0 <= r.b.num <= 255 * r.b.den,
            0 <= r.a.num <= 255 * r.a.den,
            ({
                let x0 = spec_tap_lo(u, self.width as int);
                let x1 = spec_tap_hi(u, self.width as int);
                let y0 = spec_tap_lo(v, self.height as int);
                let y1 = spec_tap_hi(v, self.height as int);
                let fx = spec_tap_frac(u, self.width as int);
                let fy = spec_tap_frac(v, self.height as int);
                let t00 = self.spec_texel_at(x0, y0);
                let t10 = self.spec_texel_at(x1, y0);
                let t01 = self.spec_texel_at(x0, y1);
                let t11 = self.spec_texel_at(x1, y1);
                &&& r.r.num == spec_weighted(
                    t00.r as int,
                    t10.r as int,
                    t01.r as int,
                    t11.r as int,
                    fx,
                    u.den as int,
                    fy,
                    v.den as int,
                )
                &&& r.g.num == spec_weighted(
                    t00.g as int,
                    t10.g as int,
                    t01.g as int,
                    t11.g as int,
                    fx,
                    u.den as int,
                    fy,
                    v.den as int,
                )
                &&& r.b.num == spec_weighted(
                    t00.b as int,
                    t10.b as int,
                    t01.b as int,
                    t11.b as int,
                    fx,
                    u.den as int,
                    fy,
                    v.den as int,
                )
                &&& r.a.num == spec_weighted(
                    t00.a as int,
                    t10.a as int,
                    t01.a as int,
                    t11.a as int,
                    fx,
                    u.den as int,
                    fy,
                    v.den as int,
                )
            }),
    {
        proof {
            assert(0 < (u.den as int) * (v.den as int) <= 0x1000_0000_0000_0000) by (
            nonlinear_arith)
                requires
                    0 < u.den <= 0x4000_0000,
                    0 < v.den <= 0x4000_0000,
            ;
        }
        let (x0, x1, fx) = tap_positions(u, self.width);
        let (y0, y1, fy) = tap_positions(v, self.height);
        let t00 = self.texel_at(x0, y0);
        let t10 = self.texel_at(x1, y0);
        let t01 = self.texel_at(x0, y1);
        let t11 = self.texel_at(x1, y1);
        let den: i128 = (u.den as i128) * (v.den as i128);
        SampledColor {
            r: Ratio::new(
                blend_channel(t00.r, t10.r, t01.r, t11.r, fx, u.den, fy, v.den),
                den,
            ),
            g: Ratio::new(
                blend_channel(t00.g, t10.g, t01.g, t11.g, fx, u.den, fy, v.den),
                den,
            ),
            b: Ratio::new(
                blend_channel(t00.b, t10.b, t01.b, t11.b, fx, u.den, fy, v.den),
                den,
            ),
            a: Ratio::new(
                blend_channel(t00.a, t10.a, t01.a, t11.a, fx, u.den, fy, v.den),
                den,
            ),
        }
    }
}

/// Computes the two tap indices and the fractional numerator along one
/// axis.
fn tap_positions(c: Ratio, dim: u32) -> (r: (u32, u32, u64))
    requires
        spec_coord_wf(c),
        0 < dim <= MAX_TEXTURE_DIM,
    ensures
        r.0 == spec_tap_lo(c, dim as int),
        r.1 == spec_tap_hi(c, dim as int),
        r.2 == spec_tap_frac(c, dim as int),
        r.0 < dim,
        r.1 < dim,
        r.2 < c.den,
    {
    proof {
        assert(0 <= c.num * (dim - 1) <= 0x1_0000_0000_0000) by (nonlinear_arith)
            requires
                0 <= c.num <= 0x4000_0000,
                0 < dim <= 0x4000,
        ;
    }
    let num: u64 = (c.num as u64) * ((dim - 1) as u64);
    let den: u64 = c.den as u64;
    let lo: u64 = num / den;
    let frac: u64 = num % den;
    proof {
        lemma_tap_lo_in_range(c.num as int, c.den as int, dim as int);
    }
    let lo32: u32 = lo as u32;
    let hi: u32 = if lo32 + 1 < dim {
        lo32 + 1
    } else {
        dim - 1
    };
    (lo32, hi, frac)
}

/// The lower tap of a coordinate in `[0, 1]` lies inside the grid.
proof fn lemma_tap_lo_in_range(num: int, den: int, dim: int)
    requires
        0 < den,
        0 <= num <= den,
        0 < dim,
    ensures
        0 <= (num * (dim - 1)) / den <= dim - 1,
{
    assert(0 <= num * (dim - 1) <= den * (dim - 1)) by (nonlinear_arith)
        requires
            0 < den,
            0 <= num <= den,
            0 < dim,
    ;
    assert(0 <= (num * (dim - 1)) / den) by (nonlinear_arith)
        requires
            0 <= num * (dim - 1),
            0 < den,
    ;
    assert((num * (dim - 1)) / den <= dim - 1) by (nonlinear_arith)
        requires
            0 <= num * (dim - 1) <= den * (dim - 1),
            0 < den,
    ;
}

/// Blends one channel of the four taps; the result is the exact numerator
/// over `ud * vd`.
fn blend_channel(c00: u8, c10: u8, c01: u8, c11: u8, fx: u64, ud: i128, fy: u64, vd: i128) -> (r:
    i128)
    requires
        0 < ud <= 0x4000_0000,
        0 < vd <= 0x4000_0000,
        fx < ud,
        fy < vd,
    ensures
        r == spec_weighted(
            c00 as int,
            c10 as int,
            c01 as int,
            c11 as int,
            fx as int,
            ud as int,
            fy as int,
            vd as int,
        ),
        0 <= r <= 255 * (ud * vd),
{
    proof {
        lemma_weighted_in_range(
            c00 as int,
            c10 as int,
            c01 as int,
            c11 as int,
            fx as int,
            ud as int,
            fy as int,
            vd as int,
        );
    }
    let fxi: i128 = fx as i128;
    let fyi: i128 = fy as i128;
    proof {
        lemma_weight_bounds(fxi as int, ud as int, fyi as int, vd as int);
        lemma_term_bounds((ud - fxi) * (vd - fyi), c00 as int);
        lemma_term_bounds(fxi * (vd - fyi), c10 as int);
        lemma_term_bounds((ud - fxi) * fyi, c01 as int);
        lemma_term_bounds(fxi * fyi, c11 as int);
    }
    let w00: i128 = (ud - fxi) * (vd - fyi);
    let w10: i128 = fxi * (vd - fyi);
    let w01: i128 = (ud - fxi) * fyi;
    let w11: i128 = fxi * fyi;
    w00 * (c00 as i128) + w10 * (c10 as i128) + w01 * (c01 as i128) + w11 * (c11 as i128)
}

/// Each of the four bilinear weights is non-negative and at most the
/// product of the two denominators.
proof fn lemma_weight_bounds(fx: int, ud: int, fy: int, vd: int)
    requires
        0 < ud <= 0x4000_0000,
        0 < vd <= 0x4000_0000,
        0 <= fx < ud,
        0 <= fy < vd,
    ensures
        0 <= (ud - fx) * (vd - fy) <= 0x1000_0000_0000_0000,
        0 <= fx * (vd - fy) <= 0x1000_0000_0000_0000,
        0 <= (ud - fx) * fy <= 0x1000_0000_0000_0000,
        0 <= fx * fy <= 0x1000_0000_0000_0000,
{
    assert(0 <= (ud - fx) * (vd - fy) <= 0x1000_0000_0000_0000 && 0 <= fx * (vd - fy)
        <= 0x1000_0000_0000_0000 && 0 <= (ud - fx) * fy <= 0x1000_0000_0000_0000 && 0 <= fx * fy
        <= 0x1000_0000_0000_0000) by (nonlinear_arith)
        requires
            0 < ud <= 0x4000_0000,
            0 < vd <= 0x4000_0000,
            0 <= fx < ud,
            0 <= fy < vd,
    ;
}

/// The blend of four channel values in `[0, 255]` lands in `[0, 255]`,
/// scaled by the common denominator: the four weights are non-negative
/// and sum to `ud * vd`.
pub proof fn lemma_weighted_in_range(
    c00: int,
    c10: int,
    c01: int,
    c11: int,
    fx: int,
    ud: int,
    fy: int,
    vd: int,
)
    requires
        0 < ud,
        0 < vd,
        0 <= fx < ud,
        0 <= fy < vd,
        0 <= c00 <= 255,
        0 <= c10 <= 255,
        0 <= c01 <= 255,
        0 <= c11 <= 255,
    ensures
        0 <= spec_weighted(c00, c10, c01, c11, fx, ud, fy, vd) <= 255 * (ud * vd),
{
    assert(0 <= (ud - fx) * (vd - fy) * c00 <= (ud - fx) * (vd - fy) * 255) by (nonlinear_arith)
        requires 0 <= fx < ud, 0 <= fy < vd, 0 <= c00 <= 255;
    assert(0 <= fx * (vd - fy) * c10 <= fx * (vd - fy) * 255) by (nonlinear_arith)
        requires 0 <= fx < ud, 0 <= fy < vd, 0 <= c10 <= 255;
    assert(0 <= (ud - fx) * fy * c01 <= (ud - fx) * fy * 255) by (nonlinear_arith)
        requires 0 <= fx < ud, 0 <= fy < vd, 0 <= c01 <= 255;
    assert(0 <= fx * fy * c11 <= fx * fy * 255) by (nonlinear_arith)
        requires 0 <= fx < ud, 0 <= fy < vd, 0 <= c11 <= 255;
    lemma_weighted_constant(255, fx, ud, fy, vd);
}

/// A weight times a channel value stays far inside the 128-bit range.
proof fn lemma_term_bounds(w: int, c: int)
    requires
        0 <= w <= 0x1000_0000_0000_0000,
        0 <= c <= 255,
    ensures
        0 <= w * c <= 0xff0_0000_0000_0000_0000,
{
    assert(0 <= w * c <= 0xff0_0000_0000_0000_0000) by (nonlinear_arith)
        requires
            0 <= w <= 0x1000_0000_0000_0000,
            0 <= c <= 255,
    ;
}

/// Sampling a one-by-one texture anywhere yields its single texel,
/// exactly, on every channel: with one texel all four taps agree, and the
/// four bilinear weights sum to one.
pub proof fn lemma_sample_uniform_1x1(t: Texture, u: Ratio, v: Ratio, s: SampledColor)
    requires
        t.wf(),
        t.width == 1,
        t.height == 1,
        spec_coord_wf(u),
        spec_coord_wf(v),
        s.r.den == u.den * v.den,
        s.g.den == u.den * v.den,
        s.b.den == u.den * v.den,
        s.a.den == u.den * v.den,
        s.r.num == spec_weighted(
            t.spec_texel_at(spec_tap_lo(u, 1), spec_tap_lo(v, 1)).r as int,
            t.spec_texel_at(spec_tap_hi(u, 1), spec_tap_lo(v, 1)).r as int,
            t.spec_texel_at(spec_tap_lo(u, 1), spec_tap_hi(v, 1)).r as int,
            t.spec_texel_at(spec_tap_hi(u, 1), spec_tap_hi(v, 1)).r as int,
            spec_tap_frac(u, 1),
            u.den as int,
            spec_tap_frac(v, 1),
            v.den as int,
        ),
        s.g.num == spec_weighted(
            t.spec_texel_at(spec_tap_lo(u, 1), spec_tap_lo(v, 1)).g as int,
            t.spec_texel_at(spec_tap_hi(u, 1), spec_tap_lo(v, 1)).g as int,
            t.spec_texel_at(spec_tap_lo(u, 1), spec_tap_hi(v, 1)).g as int,
            t.spec_texel_at(spec_tap_hi(u, 1), spec_tap_hi(v, 1)).g as int,
            spec_tap_frac(u, 1),
            u.den as int,
            spec_tap_frac(v, 1),
            v.den as int,
        ),
        s.b.num == spec_weighted(
            t.spec_texel_at(spec_tap_lo(u, 1), spec_tap_lo(v, 1)).b as int,
            t.spec_texel_at(spec_tap_hi(u, 1), spec_tap_lo(v, 1)).b as int,
            t.spec_texel_at(spec_tap_lo(u, 1), spec_tap_hi(v, 1)).b as int,
            t.spec_texel_at(spec_tap_hi(u, 1), spec_tap_hi(v, 1)).b as int,
            spec_tap_frac(u, 1),
            u.den as int,
            spec_tap_frac(v, 1),
            v.den as int,
        ),
        s.a.num == spec_weighted(
            t.spec_texel_at(spec_tap_lo(u, 1), spec_tap_lo(v, 1)).a as int,
            t.spec_texel_at(spec_tap_hi(u, 1), spec_tap_lo(v, 1)).a as int,
            t.spec_texel_at(spec_tap_lo(u, 1), spec_tap_hi(v, 1)).a as int,
            t.spec_texel_at(spec_tap_hi(u, 1), spec_tap_hi(v, 1)).a as int,
            spec_tap_frac(u, 1),
            u.den as int,
            spec_tap_frac(v, 1),
            v.den as int,
        ),
    ensures
        s.r.is_int(t.spec_texel_at(0, 0).r as int),
        s.g.is_int(t.spec_texel_at(0, 0).g as int),
        s.b.is_int(t.spec_texel_at(0, 0).b as int),
        s.a.is_int(t.spec_texel_at(0, 0).a as int),
{
    assert(spec_tap_lo(u, 1) == 0);
    assert(spec_tap_lo(v, 1) == 0);
    assert(spec_tap_hi(u, 1) == 0);
    assert(spec_tap_hi(v, 1) == 0);
    let texel = t.spec_texel_at(0, 0);
    lemma_weighted_constant(
        texel.r as int,
        spec_tap_frac(u, 1),
        u.den as int,
        spec_tap_frac(v, 1),
        v.den as int,
    );
    lemma_weighted_constant(
        texel.g as int,
        spec_tap_frac(u, 1),
        u.den as int,
        spec_tap_frac(v, 1),
        v.den as int,
    );
    lemma_weighted_constant(
        texel.b as int,
        spec_tap_frac(u, 1),
        u.den as int,
        spec_tap_frac(v, 1),
        v.den as int,
    );
    lemma_weighted_constant(
        texel.a as int,
        spec_tap_frac(u, 1),
        u.den as int,
        spec_tap_frac(v, 1),
        v.den as int,
    );
}

/// Modulates a sampled channel by a vertex color channel given in micro
/// units, exactly: the shader multiplies the two.
pub fn modulate_channel(color_micro: i64, t: Ratio) -> (r: Ratio)
    requires
        0 <= color_micro <= MICRO,
        t.wf(),
        -0x7fff_ffff_ffff_ffff <= t.num <= 0x7fff_ffff_ffff_ffff,
        t.den <= 0x7fff_ffff_ffff_ffff,
    ensures
        r.wf(),
        r.num == color_micro * t.num,
        r.den == MICRO * t.den,
{
    proof {
        lemma_modulate_in_range(color_micro as int, t.num as int, t.den as int);
    }
    Ratio::new((color_micro as i128) * t.num, (MICRO as i128) * t.den)
}

/// The modulation products stay inside the 128-bit range.
proof fn lemma_modulate_in_range(c: int, num: int, den: int)
    requires
        0 <= c <= MICRO,
        -0x7fff_ffff_ffff_ffff <= num <= 0x7fff_ffff_ffff_ffff,
        0 < den <= 0x7fff_ffff_ffff_ffff,
    ensures
        -0x4000_0000_0000_0000_0000_0000_0000_0000 <= c * num
            <= 0x4000_0000_0000_0000_0000_0000_0000_0000,
        0 < MICRO * den <= 0x4000_0000_0000_0000_0000_0000_0000_0000,
{
    assert(-0x4000_0000_0000_0000_0000_0000_0000_0000 <= c * num
        <= 0x4000_0000_0000_0000_0000_0000_0000_0000) by (nonlinear_arith)
        requires
            0 <= c <= MICRO,
            -0x7fff_ffff_ffff_ffff <= num <= 0x7fff_ffff_ffff_ffff,
    ;
    assert(0 < MICRO * den <= 0x4000_0000_0000_0000_0000_0000_0000_0000) by (nonlinear_arith)
        requires
            0 < den <= 0x7fff_ffff_ffff_ffff,
    ;
}

/// Modulating by a solid-white vertex color leaves the sampled value
/// unchanged: the white channel is exactly one.
pub proof fn lemma_modulate_white_identity(t: Ratio, r: Ratio)
    requires
        t.wf(),
        r.wf(),
        r.num == MICRO * t.num,
        r.den == MICRO * t.den,
    ensures
        r.same_value(t),
{
    assert(MICRO * t.num * t.den == t.num * (MICRO * t.den)) by (nonlinear_arith);
}

} // verus!
