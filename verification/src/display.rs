//! One display output as the platform describes it.

use vstd::prelude::*;

verus! {

/// Number of 16-bit units in a device name as reported.
pub const DEVICE_NAME_LEN: usize = 32;

/// How the image of an output is turned against its scan-out.
#[derive(Clone, Copy, Debug, PartialEq, Eq, Structural)]
pub enum Rotation {
    /// The platform did not say.
    Unspecified,
    /// Not rotated.
    Identity,
    /// Turned by a quarter.
    Rotate90,
    /// Turned upside down.
    Rotate180,
    /// Turned by three quarters.
    Rotate270,
}

impl Rotation {
    /// The rotation that a platform mode number stands for.
    pub open spec fn spec_from_mode(mode: u32) -> Option<Rotation> {
        if mode == 0 {
            Some(Rotation::Unspecified)
        } else if mode == 1 {
            Some(Rotation::Identity)
        } else if mode == 2 {
            Some(Rotation::Rotate90)
        } else if mode == 3 {
            Some(Rotation::Rotate180)
        } else if mode == 4 {
            Some(Rotation::Rotate270)
        } else {
            None
        }
    }

    /// Reads a platform mode number: 0 to 4 in the order of the variants,
    /// `None` for any other number.
    pub fn from_mode(mode: u32) -> (rotation: Option<Rotation>)
        ensures
            rotation == Rotation::spec_from_mode(mode),
    {
        match mode {
            0 => Some(Rotation::Unspecified),
            1 => Some(Rotation::Identity),
            2 => Some(Rotation::Rotate90),
            3 => Some(Rotation::Rotate180),
            4 => Some(Rotation::Rotate270),
            _ => None,
        }
    }
}

/// A rectangle in virtual-desktop coordinates; `right` and `bottom` lie just
/// outside it.
#[derive(Clone, Copy, Debug, PartialEq, Eq, Structural)]
pub struct Rect {
    /// Left edge.
    pub left: i32,
    /// Top edge.
    pub top: i32,
    /// Right edge.
    pub right: i32,
    /// Bottom edge.
    pub bottom: i32,
}

impl Rect {
    /// Distance from the left to the right edge.
    pub open spec fn spec_width(self) -> int {
        self.right - self.left
    }

    /// Distance from the top to the bottom edge.
    pub open spec fn spec_height(self) -> int {
        self.bottom - self.top
    }

    /// Both distances can be written as a 32-bit signed number.
    pub open spec fn spec_measurable(self) -> bool {
        &&& i32::MIN <= self.spec_width() <= i32::MAX
        &&& i32::MIN <= self.spec_height() <= i32::MAX
    }

    /// The rectangle has an inside, and both distances can be written as a
    /// 32-bit signed number.
    pub open spec fn spec_proper(self) -> bool {
        &&& 0 < self.spec_width() <= i32::MAX
        &&& 0 < self.spec_height() <= i32::MAX
    }

    /// Whether both distances can be written as a 32-bit signed number.
    pub fn measurable(&self) -> (b: bool)
        ensures
            b == self.spec_measurable(),
    {
        let w: i64 = self.right as i64 - self.left as i64;
        let h: i64 = self.bottom as i64 - self.top as i64;
        -0x8000_0000 <= w && w <= 0x7fff_ffff && -0x8000_0000 <= h && h <= 0x7fff_ffff
    }

    /// Whether the rectangle has an inside whose width and height can be
    /// written as a 32-bit signed number.
    pub fn proper(&self) -> (b: bool)
        ensures
            b == self.spec_proper(),
    {
        let w: i64 = self.right as i64 - self.left as i64;
        let h: i64 = self.bottom as i64 - self.top as i64;
        0 < w && w <= 0x7fff_ffff && 0 < h && h <= 0x7fff_ffff
    }
}

/// What the platform reports of one output.
#[derive(Clone, Copy, Debug)]
pub struct OutputDesc {
    /// Device name, padded with zero units.
    pub device_name: [u16; 32],
    /// Bounds of the output in the virtual desktop.
    pub coordinates: Rect,
    /// Rotation of the output.
    pub rotation: Rotation,
}

/// Number of units of `name` before its first zero unit, all of them where
/// there is none.
pub open spec fn trimmed_len(name: Seq<u16>) -> nat
    decreases name.len(),
{
    if name.len() == 0 || name[0] == 0 {
        0
    } else {
        1 + trimmed_len(name.skip(1))
    }
}

/// `name` up to its first zero unit.
pub open spec fn trimmed(name: Seq<u16>) -> Seq<u16> {
    name.take(trimmed_len(name) as int)
}

/// A count is the trimmed length as soon as no unit before it is zero and the
/// name ends there or holds zero there.
pub proof fn lemma_trimmed_len(name: Seq<u16>, n: nat)
    requires
        n <= name.len(),
        forall|i: int| 0 <= i < n ==> name[i] != 0,
        n < name.len() ==> name[n as int] == 0,
    ensures
        trimmed_len(name) == n,
    decreases name.len(),
{
    if name.len() == 0 || name[0] == 0 {
    } else {
        let rest = name.skip(1);
        assert forall|i: int| 0 <= i < n - 1 implies rest[i] != 0 by {
            assert(rest[i] == name[i + 1]);
        }
        lemma_trimmed_len(rest, (n - 1) as nat);
    }
}

/// Geometry and identity of one capturable output, as found by an
/// enumeration.
#[derive(Clone, Copy, Debug)]
pub struct Display {
    adapter: u32,
    output: u32,
    desc: OutputDesc,
}

impl Display {
    /// Index of the adapter that owns the output.
    pub closed spec fn spec_adapter(&self) -> u32 {
        self.adapter
    }

    /// Index of the output on its adapter.
    pub closed spec fn spec_output(&self) -> u32 {
        self.output
    }

    /// The platform's description of the output.
    pub closed spec fn spec_desc(&self) -> OutputDesc {
        self.desc
    }

    /// The display for output `output` of adapter `adapter`, described by
    /// `desc`.
    pub closed spec fn spec_new(adapter: u32, output: u32, desc: OutputDesc) -> Display {
        Display { adapter, output, desc }
    }

    /// A display is what it was made of, and nothing else.
    pub broadcast proof fn lemma_spec_new(adapter: u32, output: u32, desc: OutputDesc)
        ensures
            (#[trigger] Display::spec_new(adapter, output, desc)).spec_adapter() == adapter,
            Display::spec_new(adapter, output, desc).spec_output() == output,
            Display::spec_new(adapter, output, desc).spec_desc() == desc,
    {
    }

    /// The display for output `output` of adapter `adapter`, described by
    /// `desc`.
    pub fn new(adapter: u32, output: u32, desc: OutputDesc) -> (display: Display)
        ensures
            display == Display::spec_new(adapter, output, desc),
            display.spec_adapter() == adapter,
            display.spec_output() == output,
            display.spec_desc() == desc,
    {
        Display { adapter, output, desc }
    }

    /// Index of the adapter that owns the output.
    pub fn adapter(&self) -> (index: u32)
        ensures
            index == self.spec_adapter(),
    {
        self.adapter
    }

    /// Index of the output on its adapter.
    pub fn output(&self) -> (index: u32)
        ensures
            index == self.spec_output(),
    {
        self.output
    }

    /// The platform's description of the output.
    pub fn desc(&self) -> (desc: OutputDesc)
        ensures
            desc == self.spec_desc(),
    {
        self.desc
    }

    /// Width in pixels: the right edge less the left edge, positive where the
    /// reported rectangle has an inside.
    pub fn width(&self) -> (w: i32)
        requires
            self.spec_desc().coordinates.spec_measurable(),
        ensures
            w == self.spec_desc().coordinates.spec_width(),
            self.spec_desc().coordinates.left < self.spec_desc().coordinates.right ==> w > 0,
    {
        self.desc.coordinates.right - self.desc.coordinates.left
    }

    /// Height in pixels: the bottom edge less the top edge, positive where
    /// the reported rectangle has an inside.
    pub fn height(&self) -> (h: i32)
        requires
            self.spec_desc().coordinates.spec_measurable(),
        ensures
            h == self.spec_desc().coordinates.spec_height(),
            self.spec_desc().coordinates.top < self.spec_desc().coordinates.bottom ==> h > 0,
    {
        self.desc.coordinates.bottom - self.desc.coordinates.top
    }

    /// Rotation of the output.
    pub fn rotation(&self) -> (r: Rotation)
        ensures
            r == self.spec_desc().rotation,
    {
        self.desc.rotation
    }

    /// The device name up to its first zero unit.
    pub fn name(&self) -> (name: &[u16])
        ensures
            name@ == trimmed(self.spec_desc().device_name@),
    {
        let s = &self.desc.device_name;
        let mut i: usize = 0;
        while i < 32 && s[i] != 0
            invariant
                i <= 32,
                s@.len() == 32,
                forall|k: int| 0 <= k < i ==> s@[k] != 0,
            decreases 32 - i,
        {
            i += 1;
        }
        proof {
            lemma_trimmed_len(s@, i as nat);
        }
        vstd::slice::slice_subrange(s.as_slice(), 0, i)
    }
}

} // verus!
