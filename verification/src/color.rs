use vstd::prelude::*;

verus! {

/// The channel value that stands for the normalized intensity `1.0`.
/// A channel value `c: u16` stands for the intensity `c / 65535`.
pub const CHANNEL_ONE: u16 = 65535;

/// An RGBA color. Each channel ranges over `0..=CHANNEL_ONE` and stands for
/// a normalized intensity in `[0.0, 1.0]`; every `u16` is a valid channel,
/// so no color value can leave the allowed range.
#[derive(Clone, Copy, Debug, PartialEq, Eq, Structural)]
pub struct Rgba {
    pub r: u16,
    pub g: u16,
    pub b: u16,
    pub a: u16,
}

/// The 8-bit secondary representation of a color, used for display and
/// textual entry, never as primary storage.
#[derive(Clone, Copy, Debug, PartialEq, Eq, Structural)]
pub struct Rgba8 {
    pub r: u8,
    pub g: u8,
    pub b: u8,
    pub a: u8,
}

/// One of the four editable channels of a color.
#[derive(Clone, Copy, Debug, PartialEq, Eq, Structural)]
pub enum Channel {
    Red,
    Green,
    Blue,
    Alpha,
}

/// The channel `ch` of `c`.
pub open spec fn channel_of(c: Rgba, ch: Channel) -> u16 {
    match ch {
        Channel::Red => c.r,
        Channel::Green => c.g,
        Channel::Blue => c.b,
        Channel::Alpha => c.a,
    }
}

/// `c` with channel `ch` replaced by `v`.
pub open spec fn with_channel(c: Rgba, ch: Channel, v: u16) -> Rgba {
    match ch {
        Channel::Red => Rgba { r: v, ..c },
        Channel::Green => Rgba { g: v, ..c },
        Channel::Blue => Rgba { b: v, ..c },
        Channel::Alpha => Rgba { a: v, ..c },
    }
}

/// A raw channel value clamped into the representable range, the model of
/// clamping a normalized intensity into `[0.0, 1.0]`.
pub open spec fn clamp_channel_spec(v: int) -> u16 {
    if v < 0 {
        0u16
    } else if v > 65535 {
        65535u16
    } else {
        v as u16
    }
}

/// The nearest 8-bit encoding of a channel: `round(c * 255 / 65535)`, which
/// is `round(c / 257)`. No tie is possible because 257 is odd.
pub open spec fn quantize8(c: u16) -> u8 {
    (((c as int) + 128) / 257) as u8
}

/// The exact channel value of an 8-bit intensity `k`: `k / 255` normalized
/// is exactly `k * 257` in channel units.
pub open spec fn widen8(k: u8) -> u16 {
    ((k as int) * 257) as u16
}

impl Rgba {
    /// The color whose four channels are all zero (transparent black).
    pub open spec fn zero_spec() -> Rgba {
        Rgba { r: 0u16, g: 0u16, b: 0u16, a: 0u16 }
    }

    /// Reads one channel.
    pub fn channel(&self, ch: Channel) -> (v: u16)
        ensures
            v == channel_of(*self, ch),
    {
        match ch {
            Channel::Red => self.r,
            Channel::Green => self.g,
            Channel::Blue => self.b,
            Channel::Alpha => self.a,
        }
    }

    /// Replaces one channel.
    pub fn set_channel(&mut self, ch: Channel, v: u16)
        ensures
            *final(self) == with_channel(*old(self), ch, v),
    {
        match ch {
            Channel::Red => self.r = v,
            Channel::Green => self.g = v,
            Channel::Blue => self.b = v,
            Channel::Alpha => self.a = v,
        }
    }

    /// The 8-bit view of the color, each channel rounded to the nearest of
    /// the 256 display steps.
    pub open spec fn to_rgba8_spec(self) -> Rgba8 {
        Rgba8 {
            r: quantize8(self.r),
            g: quantize8(self.g),
            b: quantize8(self.b),
            a: quantize8(self.a),
        }
    }

    /// The 8-bit view of the color, each channel rounded to the nearest of
    /// the 256 display steps.
    pub fn to_rgba8(&self) -> (k: Rgba8)
        ensures
            k == self.to_rgba8_spec(),
    {
        Rgba8 {
            r: quantize8_exec(self.r),
            g: quantize8_exec(self.g),
            b: quantize8_exec(self.b),
            a: quantize8_exec(self.a),
        }
    }

    /// The exact color of four 8-bit channels.
    pub fn from_rgba8(k: Rgba8) -> (c: Rgba)
        ensures
            c.r == widen8(k.r),
            c.g == widen8(k.g),
            c.b == widen8(k.b),
            c.a == widen8(k.a),
    {
        Rgba {
            r: (k.r as u16) * 257,
            g: (k.g as u16) * 257,
            b: (k.b as u16) * 257,
            a: (k.a as u16) * 257,
        }
    }
}

/// Clamps a raw channel value into the representable range.
pub fn clamp_channel(v: i64) -> (c: u16)
    ensures
        c == clamp_channel_spec(v as int),
{
    if v < 0 {
        0
    } else if v > 65535 {
        65535
    } else {
        v as u16
    }
}

fn quantize8_exec(c: u16) -> (k: u8)
    ensures
        k == quantize8(c),
{
    (((c as u32) + 128) / 257) as u8
}

/// Quantizing to 8 bits undoes the exact widening of an 8-bit intensity:
/// the 8-bit round trip is lossless.
pub proof fn lemma_widen8_quantize8(k: u8)
    ensures
        quantize8(widen8(k)) == k,
{
}

} // verus!
