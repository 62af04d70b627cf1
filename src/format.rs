use vstd::prelude::*;

verus! {

/// The channels of a texel.
#[derive(Debug, Clone, Copy, PartialEq, Eq, Structural)]
pub enum Format {
    R,
    RG,
    RGB,
    RGBA,
    Depth,
}

/// The element type that each channel is stored as.
#[derive(Debug, Clone, Copy, PartialEq, Eq, Structural)]
pub enum DataType {
    U8,
    F16,
    F32,
}

/// Sampling interpolation, for the min, mag and mip filters.
#[derive(Debug, Clone, Copy, PartialEq, Eq, Structural)]
pub enum Interpolation {
    Nearest,
    Linear,
}

/// Wrapping of texture coordinates outside `[0, 1]`.
#[derive(Debug, Clone, Copy, PartialEq, Eq, Structural)]
pub enum Wrapping {
    Repeat,
    MirroredRepeat,
    ClampToEdge,
}

pub open spec fn channels_spec(format: Format) -> nat {
    match format {
        Format::R => 1,
        Format::RG => 2,
        Format::RGB => 3,
        Format::RGBA => 4,
        Format::Depth => 1,
    }
}

pub open spec fn element_bytes_spec(data_type: DataType) -> nat {
    match data_type {
        DataType::U8 => 1,
        DataType::F16 => 2,
        DataType::F32 => 4,
    }
}

/// Number of channels per texel of `format`.
pub fn channels(format: Format) -> (r: u32)
    ensures
        r == channels_spec(format),
{
    match format {
        Format::R => 1,
        Format::RG => 2,
        Format::RGB => 3,
        Format::RGBA => 4,
        Format::Depth => 1,
    }
}

/// Number of bytes that one channel element of `data_type` takes.
pub fn element_bytes(data_type: DataType) -> (r: u32)
    ensures
        r == element_bytes_spec(data_type),
{
    match data_type {
        DataType::U8 => 1,
        DataType::F16 => 2,
        DataType::F32 => 4,
    }
}

/// High dynamic range: the channel elements are wider than 8 bits.
pub open spec fn is_hdr_spec(data_type: DataType) -> bool {
    8 * element_bytes_spec(data_type) > 8
}

pub fn is_hdr(data_type: DataType) -> (r: bool)
    ensures
        r == is_hdr_spec(data_type),
{
    let bits: u32 = 8 * element_bytes(data_type);
    bits > 8
}

/// The length in bytes of one image of `width` by `height` texels.
pub open spec fn image_len(width: nat, height: nat, format: Format, data_type: DataType) -> nat {
    width * height * channels_spec(format) * element_bytes_spec(data_type)
}

/// Whether `len` bytes are exactly `count` images of the given size.
pub fn has_image_len(
    width: u32,
    height: u32,
    format: Format,
    data_type: DataType,
    count: u32,
    len: usize,
) -> (r: bool)
    requires
        count <= 6,
    ensures
        r == (len == count * image_len(width as nat, height as nat, format, data_type)),
{
    let c: u128 = channels(format) as u128;
    let b: u128 = element_bytes(data_type) as u128;
    let w: u128 = width as u128;
    let h: u128 = height as u128;
    assert(w * h <= 0xffff_ffffu128 * 0xffff_ffffu128) by (nonlinear_arith)
        requires w <= 0xffff_ffffu128, h <= 0xffff_ffffu128;
    let wh: u128 = w * h;
    assert(wh * c <= 0xffff_ffffu128 * 0xffff_ffffu128 * 4) by (nonlinear_arith)
        requires wh <= 0xffff_ffffu128 * 0xffff_ffffu128, c <= 4;
    let whc: u128 = wh * c;
    assert(whc * b <= 0xffff_ffffu128 * 0xffff_ffffu128 * 16) by (nonlinear_arith)
        requires whc <= 0xffff_ffffu128 * 0xffff_ffffu128 * 4, b <= 4;
    let one: u128 = whc * b;
    assert(one * (count as u128) <= 0xffff_ffffu128 * 0xffff_ffffu128 * 96) by (nonlinear_arith)
        requires one <= 0xffff_ffffu128 * 0xffff_ffffu128 * 16, count <= 6;
    let total: u128 = one * (count as u128);
    proof {
        assert(image_len(width as nat, height as nat, format, data_type) == one) by (nonlinear_arith)
            requires
                one == w * h * c * b,
                w == width, h == height,
                c == channels_spec(format), b == element_bytes_spec(data_type),
                image_len(width as nat, height as nat, format, data_type)
                    == width * height * channels_spec(format) * element_bytes_spec(data_type);
    }
    len as u128 == total
}

/// `n` is a power of two (1, 2, 4, ...).
pub open spec fn is_power_of_two(n: nat) -> bool
    decreases n,
{
    if n == 1 {
        true
    } else if n < 2 || n % 2 != 0 {
        false
    } else {
        is_power_of_two(n / 2)
    }
}

/// ⌊log2(n)⌋ for `n >= 1`.
pub open spec fn log2(n: nat) -> nat
    decreases n,
{
    if n <= 1 {
        0
    } else {
        1 + log2(n / 2)
    }
}

pub open spec fn max_nat(a: nat, b: nat) -> nat {
    if a >= b { a } else { b }
}

/// Depth of the mip chain: mip-mapping is on only when a mip filter is asked for
/// and both sizes are powers of two; then it is ⌊log2(max(width, height))⌋ + 1
/// levels, else a single level.
pub open spec fn mip_levels(mip_map_filter: Option<Interpolation>, width: nat, height: nat) -> nat {
    if mip_map_filter.is_some() && is_power_of_two(width) && is_power_of_two(height) {
        log2(max_nat(width, height)) + 1
    } else {
        1
    }
}

pub fn power_of_two(n: u32) -> (r: bool)
    ensures
        r == is_power_of_two(n as nat),
{
    let mut m: u32 = n;
    while m >= 2 && m % 2 == 0
        invariant
            is_power_of_two(m as nat) == is_power_of_two(n as nat),
        decreases m,
    {
        m = m / 2;
    }
    m == 1
}

pub fn floor_log2(n: u32) -> (r: u32)
    ensures
        r == log2(n as nat),
        r < 32,
{
    let mut m: u32 = n;
    let mut k: u32 = 0;
    assert(pow2_nat(0) == 1);
    while m > 1
        invariant
            k + log2(m as nat) == log2(n as nat),
            k < 32,
            m as nat * pow2_nat(k as nat) <= n,
        decreases m,
    {
        proof { lemma_pow2_bound(k as nat, m as nat, n as nat); }
        m = m / 2;
        k = k + 1;
    }
    k
}

pub open spec fn pow2_nat(k: nat) -> nat
    decreases k,
{
    if k == 0 { 1 } else { 2 * pow2_nat((k - 1) as nat) }
}

proof fn lemma_pow2_bound(k: nat, m: nat, n: nat)
    requires
        m >= 2,
        m * pow2_nat(k) <= n,
        n <= 0xffff_ffff,
    ensures
        k + 1 < 32,
        (m / 2) * pow2_nat(k + 1) <= n,
{
    lemma_pow2_grows(k);
    assert(2 * pow2_nat(k) <= n) by (nonlinear_arith)
        requires m >= 2, m * pow2_nat(k) <= n;
    if k + 1 >= 32 {
        lemma_pow2_mono(32, k + 1);
        reveal_with_fuel(pow2_nat, 33);
        assert(pow2_nat(32) == 0x1_0000_0000);
    }
    assert((m / 2) * pow2_nat(k + 1) <= n) by (nonlinear_arith)
        requires m * pow2_nat(k) <= n, pow2_nat(k + 1) == 2 * pow2_nat(k);
}

proof fn lemma_pow2_grows(k: nat)
    ensures
        pow2_nat(k + 1) == 2 * pow2_nat(k),
        pow2_nat(k) >= 1,
    decreases k,
{
    if k > 0 {
        lemma_pow2_grows((k - 1) as nat);
    }
}

proof fn lemma_pow2_mono(a: nat, b: nat)
    requires
        a <= b,
    ensures
        pow2_nat(a) <= pow2_nat(b),
    decreases b,
{
    if a < b {
        lemma_pow2_mono(a, (b - 1) as nat);
        lemma_pow2_grows((b - 1) as nat);
    }
}

/// `log2` is the floor of the base-two logarithm: `2^log2(n) <= n < 2^(log2(n) + 1)`.
pub proof fn lemma_log2_is_floor(n: nat)
    requires
        n >= 1,
    ensures
        pow2_nat(log2(n)) <= n < pow2_nat(log2(n) + 1),
    decreases n,
{
    if n > 1 {
        lemma_log2_is_floor(n / 2);
        lemma_pow2_grows(log2(n / 2));
        lemma_pow2_grows(log2(n / 2) + 1);
    }
}

/// Mip-chain depth: with a mip filter and power-of-two sizes it is
/// ⌊log2(max(width, height))⌋ + 1; with a size that is not a power of two it is
/// 1 whatever filter was asked for; without a mip filter it is 1.
pub proof fn lemma_mip_chain_depth(mip_map_filter: Option<Interpolation>, width: nat, height: nat)
    ensures
        mip_map_filter.is_some() && is_power_of_two(width) && is_power_of_two(height)
            ==> mip_levels(mip_map_filter, width, height) == log2(max_nat(width, height)) + 1,
        !is_power_of_two(width) || !is_power_of_two(height) ==> mip_levels(mip_map_filter, width, height) == 1,
        mip_map_filter.is_none() ==> mip_levels(mip_map_filter, width, height) == 1,
        mip_levels(mip_map_filter, width, height) >= 1,
{
}

/// Number of mip levels that a texture of the given size is allocated with.
pub fn calculate_number_of_mip_maps(
    mip_map_filter: Option<Interpolation>,
    width: u32,
    height: u32,
) -> (r: u32)
    ensures
        r == mip_levels(mip_map_filter, width as nat, height as nat),
        r >= 1,
{
    if mip_map_filter.is_some() && power_of_two(width) && power_of_two(height) {
        let m: u32 = if width >= height { width } else { height };
        floor_log2(m) + 1
    } else {
        1
    }
}

} // verus!
