//! The fixed 64-entry color palette, loaded from 192 bytes of R, G, B
//! triples.

use vstd::prelude::*;

verus! {

/// One palette color.
#[derive(Clone, Copy, Debug, PartialEq, Eq, Structural)]
pub struct Color {
    /// Red component.
    pub r: u8,
    /// Green component.
    pub g: u8,
    /// Blue component.
    pub b: u8,
}

/// A 64-entry color palette.
pub struct Palette {
    colors: Vec<Color>,
}

impl View for Palette {
    type V = Seq<Color>;

    closed spec fn view(&self) -> Seq<Color> {
        self.colors@
    }
}

/// The color that entry `i` of 192 palette-file bytes decodes to.
pub open spec fn spec_palette_entry(s: Seq<u8>, i: int) -> Color {
    Color { r: s[3 * i], g: s[3 * i + 1], b: s[3 * i + 2] }
}

impl Palette {
    /// Every palette holds exactly 64 entries.
    pub open spec fn wf(&self) -> bool {
        self@.len() == 64
    }

    /// An all-black palette.
    pub fn new() -> (r: Palette)
        ensures
            r.wf(),
            forall|i: int| 0 <= i < 64 ==> r@[i] == (Color { r: 0, g: 0, b: 0 }),
    {
        let mut colors: Vec<Color> = Vec::new();
        let mut i: usize = 0;
        while i < 64
            invariant
                i <= 64,
                colors@.len() == i,
                forall|j: int| 0 <= j < i ==> colors@[j] == (Color { r: 0, g: 0, b: 0 }),
            decreases 64 - i,
        {
            colors.push(Color { r: 0, g: 0, b: 0 });
            i += 1;
        }
        Palette { colors }
    }

    /// Decode a palette from raw bytes: 64 entries of three bytes each, in
    /// R, G, B order. `Err` when fewer than 192 bytes are given.
    pub fn read_data(src: &Vec<u8>) -> (r: Result<Palette, ()>)
        ensures
            r is Ok <==> src@.len() >= 192,
            r matches Ok(p) ==> p.wf() && forall|i: int|
                0 <= i < 64 ==> p@[i] == spec_palette_entry(src@, i),
    {
        if src.len() < 192 {
            return Err(());
        }
        let mut colors: Vec<Color> = Vec::new();
        let mut i: usize = 0;
        while i < 64
            invariant
                i <= 64,
                src@.len() >= 192,
                colors@.len() == i,
                forall|j: int| 0 <= j < i ==> colors@[j] == spec_palette_entry(src@, j),
            decreases 64 - i,
        {
            colors.push(Color { r: src[3 * i], g: src[3 * i + 1], b: src[3 * i + 2] });
            i += 1;
        }
        Ok(Palette { colors })
    }

    /// The color at a palette index.
    pub fn color(&self, i: usize) -> (r: Color)
        requires
            self.wf(),
            i < 64,
        ensures
            r == self@[i as int],
    {
        self.colors[i]
    }
}

} // verus!
