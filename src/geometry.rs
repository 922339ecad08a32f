use vstd::prelude::*;

verus! {

/// Length of one side of the unit view square: coordinates are integers in
/// millionths of the view, so `UNIT` stands for `1.0`.
pub const UNIT: i64 = 1_000_000;

/// A simple axis-aligned rectangle with a position and a size.
#[derive(Clone, Copy, Debug, PartialEq, Eq, Structural)]
pub struct Rectangle {
    pub x: i64,
    pub y: i64,
    pub w: i64,
    pub h: i64,
}

impl Rectangle {
    /// Open-interval overlap of two rectangles: touching edges do not count.
    pub open spec fn overlaps(self, o: Rectangle) -> bool {
        &&& self.x < o.x + o.w
        &&& self.y < o.y + o.h
        &&& self.x + self.w > o.x
        &&& self.y + self.h > o.y
    }

    /// Check whether the rectangle collides with the given rectangle.
    pub fn collides(&self, rect: &Rectangle) -> (r: bool)
        ensures
            r == self.overlaps(*rect),
    {
        let (ax, ay, aw, ah) = (self.x as i128, self.y as i128, self.w as i128, self.h as i128);
        let (bx, by, bw, bh) = (rect.x as i128, rect.y as i128, rect.w as i128, rect.h as i128);
        ax < bx + bw && ay < by + bh && ax + aw > bx && ay + ah > by
    }
}

/// The pre-defined size tier of a text object.
#[derive(Clone, Copy, Debug, PartialEq, Eq, Structural)]
pub enum TextSize {
    Tiny,
    Small,
    Medium,
    Big,
}

/// UTF-16 code unit of the ASCII digit `d`.
pub open spec fn digit_unit(d: nat) -> u16 {
    (48 + d) as u16
}

/// The decimal digits of `n` as UTF-16 code units, most significant first.
pub open spec fn decimal(n: nat) -> Seq<u16>
    decreases n,
{
    if n < 10 {
        seq![digit_unit(n)]
    } else {
        decimal(n / 10).push(digit_unit(n % 10))
    }
}

/// Appends the decimal form of `n` to `out`.
pub fn push_decimal(out: &mut Vec<u16>, n: u64)
    ensures
        final(out)@ == old(out)@ + decimal(n as nat),
    decreases n,
{
    if n >= 10 {
        push_decimal(out, n / 10);
    }
    out.push(48 + (n % 10) as u16);
    proof {
        assert(old(out)@ + decimal(n as nat) =~= final(out)@);
    }
}

/// A text with a position, its UTF-16 content and a size tier.
pub struct Text {
    pub x: i64,
    pub y: i64,
    pub text: Vec<u16>,
    pub size: TextSize,
}

impl Text {
    /// Set the decimal form of the given value as the textual content.
    pub fn set_text(&mut self, val: u64)
        ensures
            final(self).text@ == decimal(val as nat),
            final(self).x == old(self).x,
            final(self).y == old(self).y,
            final(self).size == old(self).size,
    {
        let mut units: Vec<u16> = Vec::new();
        push_decimal(&mut units, val);
        self.text = units;
    }
}

impl Text {
    /// A copy of the text, with the same position, size tier and content.
    pub fn duplicate(&self) -> (r: Text)
        ensures
            r.x == self.x,
            r.y == self.y,
            r.size == self.size,
            r.text@ == self.text@,
    {
        let n = self.text.len();
        let mut units: Vec<u16> = Vec::new();
        let mut i: usize = 0;
        while i < n
            invariant
                i <= n,
                n == self.text@.len(),
                units@ == self.text@.subrange(0, i as int),
            decreases n - i,
        {
            units.push(self.text[i]);
            i = i + 1;
        }
        assert(units@ =~= self.text@);
        Text { x: self.x, y: self.y, text: units, size: self.size }
    }
}

/// The UTF-16 code units of characters that each fit in one unit.
pub open spec fn units_of(s: Seq<char>) -> Seq<u16> {
    s.map_values(|c: char| (c as u32) as u16)
}

/// Relies on str::encode_utf16: each character below U+10000 becomes the one
/// code unit equal to its scalar value.
#[verifier::external_body]
pub(crate) fn utf16(s: &str) -> (r: Vec<u16>)
    ensures
        (forall|i: int| 0 <= i < s@.len() ==> (s@[i] as u32) < 0x10000) ==> r@ == units_of(s@),
{
    s.encode_utf16().collect()
}

} // verus!
