use vstd::prelude::*;

verus! {

/// RGB color type.
#[derive(Debug, Default, Clone, Copy, PartialEq, Eq, Hash, Structural)]
pub struct RGB(pub u8, pub u8, pub u8);

/// 15-bit console color type: `0bbbbbgggggrrrrr`.
#[derive(Debug, Default, Clone, Copy, PartialEq, PartialOrd, Hash, Structural)]
pub struct SNESColor(pub u16);

/// Red, green and blue, five bits each.
pub open spec fn red5(c: u16) -> int {
    c as int % 0x20
}

pub open spec fn green5(c: u16) -> int {
    c as int / 0x20 % 0x20
}

pub open spec fn blue5(c: u16) -> int {
    c as int / 0x400 % 0x20
}

/// An 8-bit channel rounded to the nearest 5-bit value, saturating at the top.
pub open spec fn channel5(x: u8) -> int {
    (if x + 4 < 0xF8 { x + 4 } else { 0xF8 }) / 8
}

fn channel5_exec(x: u8) -> (r: u16)
    ensures
        r as int == channel5(x),
        r < 0x20,
{
    let y: u16 = x as u16 + 4;
    let z: u16 = if y < 0xF8 { y } else { 0xF8 };
    proof {
        assert(z <= 0xF8 ==> ((z & 0xF8) >> 3) == z / 8) by (bit_vector);
    }
    (z & 0xF8) >> 3
}

impl From<SNESColor> for RGB {
    fn from(color: SNESColor) -> (r: RGB)
        ensures
            r == (RGB((red5(color.0) * 8) as u8, (green5(color.0) * 8) as u8, (blue5(color.0) * 8) as u8)),
    {
        RGB(color.r_pc(), color.g_pc(), color.b_pc())
    }
}

impl vstd::std_specs::convert::FromSpecImpl<SNESColor> for RGB {
    open spec fn obeys_from_spec() -> bool {
        true
    }

    open spec fn from_spec(color: SNESColor) -> RGB {
        RGB((red5(color.0) * 8) as u8, (green5(color.0) * 8) as u8, (blue5(color.0) * 8) as u8)
    }
}

impl From<RGB> for SNESColor {
    fn from(color: RGB) -> (r: SNESColor)
        ensures
            r.0 == channel5(color.0) + channel5(color.1) * 0x20 + channel5(color.2) * 0x400,
    {
        let r = channel5_exec(color.0);
        let g = channel5_exec(color.1);
        let b = channel5_exec(color.2);
        proof {
            assert(r < 0x20 && g < 0x20 && b < 0x20 ==> (r | g << 5 | b << 10) == r + g * 0x20 + b * 0x400) by (bit_vector);
        }
        SNESColor(r | g << 5 | b << 10)
    }
}

impl vstd::std_specs::convert::FromSpecImpl<RGB> for SNESColor {
    open spec fn obeys_from_spec() -> bool {
        true
    }

    open spec fn from_spec(color: RGB) -> SNESColor {
        SNESColor((channel5(color.0) + channel5(color.1) * 0x20 + channel5(color.2) * 0x400) as u16)
    }
}

impl RGB {
    /// Returns red color.
    pub fn r(&self) -> (r: u8)
        ensures
            r == self.0,
    {
        self.0
    }

    /// Returns green color.
    pub fn g(&self) -> (r: u8)
        ensures
            r == self.1,
    {
        self.1
    }

    /// Returns blue color.
    pub fn b(&self) -> (r: u8)
        ensures
            r == self.2,
    {
        self.2
    }
}

impl SNESColor {
    /// Returns 5-bit red color: `000rrrrr`.
    pub fn r(&self) -> (r: u8)
        ensures
            r == red5(self.0),
    {
        let c = self.0;
        proof {
            assert(((c & 0x1F) as u8) as u16 == c % 0x20) by (bit_vector);
        }
        (self.0 & 0x1F) as u8
    }

    /// Returns 5-bit green color: `000ggggg`.
    pub fn g(&self) -> (r: u8)
        ensures
            r == green5(self.0),
    {
        let c = self.0;
        proof {
            assert((((c & 0x3E0) >> 5) as u8) as u16 == c / 0x20 % 0x20) by (bit_vector);
        }
        ((self.0 & 0x3E0) >> 5) as u8
    }

    /// Returns 5-bit blue color: `000bbbbb`.
    pub fn b(&self) -> (r: u8)
        ensures
            r == blue5(self.0),
    {
        let c = self.0;
        proof {
            assert((((c & 0x7C00) >> 10) as u8) as u16 == c / 0x400 % 0x20) by (bit_vector);
        }
        ((self.0 & 0x7C00) >> 10) as u8
    }

    /// Returns 8-bit PC red color, with lower 3 bits being zero: `rrrrr000`.
    pub fn r_pc(&self) -> (r: u8)
        ensures
            r == red5(self.0) * 8,
    {
        let c = self.0;
        proof {
            assert((((c & 0x1F) << 3) as u8) as u16 == c % 0x20 * 8) by (bit_vector);
        }
        ((self.0 & 0x1F) << 3) as u8
    }

    /// Returns 8-bit PC green color, with lower 3 bits being zero: `ggggg000`.
    pub fn g_pc(&self) -> (r: u8)
        ensures
            r == green5(self.0) * 8,
    {
        let c = self.0;
        proof {
            assert((((c & 0x3E0) >> 2) as u8) as u16 == c / 0x20 % 0x20 * 8) by (bit_vector);
        }
        ((self.0 & 0x3E0) >> (5 - 3)) as u8
    }

    /// Returns 8-bit PC blue color, with lower 3 bits being zero: `bbbbb000`.
    pub fn b_pc(&self) -> (r: u8)
        ensures
            r == blue5(self.0) * 8,
    {
        let c = self.0;
        proof {
            assert((((c & 0x7C00) >> 7) as u8) as u16 == c / 0x400 % 0x20 * 8) by (bit_vector);
        }
        ((self.0 & 0x7C00) >> (10 - 3)) as u8
    }
}

} // verus!
