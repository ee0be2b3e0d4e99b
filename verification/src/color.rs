//! The fixed class-id to color mapping and its batched gather.

use vstd::prelude::*;
use crate::NUM_CLASSES;

verus! {

/// One 8-bit RGB color.
#[derive(Clone, Copy, Debug, PartialEq, Eq, Structural)]
pub struct Rgb {
    pub r: u8,
    pub g: u8,
    pub b: u8,
}

/// The color assigned to a class id.  Ids 0, 1, 2 and 11 through 18 carry
/// their own color; every other id, in range or not, gets the default
/// (30, 15, 60).
pub open spec fn table_color(id: u8) -> Rgb {
    if id == 0 {
        Rgb { r: 128, g: 64, b: 128 }  // road
    } else if id == 1 {
        Rgb { r: 244, g: 35, b: 232 }  // sidewalk
    } else if id == 2 {
        Rgb { r: 70, g: 70, b: 70 }    // building
    } else if id == 11 {
        Rgb { r: 220, g: 20, b: 60 }   // person
    } else if id == 12 {
        Rgb { r: 255, g: 0, b: 0 }     // rider
    } else if id == 13 {
        Rgb { r: 0, g: 0, b: 142 }     // car
    } else if id == 14 {
        Rgb { r: 0, g: 0, b: 70 }      // truck
    } else if id == 15 {
        Rgb { r: 0, g: 60, b: 100 }    // bus
    } else if id == 16 {
        Rgb { r: 0, g: 80, b: 100 }    // train
    } else if id == 17 {
        Rgb { r: 0, g: 0, b: 230 }     // motorcycle
    } else if id == 18 {
        Rgb { r: 119, g: 11, b: 32 }   // bicycle
    } else {
        Rgb { r: 30, g: 15, b: 60 }    // wall through sky, and ids out of range
    }
}

/// The three bytes of one color in interleaved output order.
pub open spec fn rgb_bytes(c: Rgb) -> Seq<u8> {
    seq![c.r, c.g, c.b]
}

/// The interleaved byte sequence got by looking every id of `m` up in the
/// table: three bytes per id, in mask order.
pub open spec fn color_bytes(m: Seq<u8>) -> Seq<u8>
    decreases m.len(),
{
    if m.len() == 0 {
        Seq::empty()
    } else {
        color_bytes(m.drop_last()) + rgb_bytes(table_color(m.last()))
    }
}

/// A colorized mask holds exactly three bytes per mask entry.
pub proof fn lemma_color_bytes_len(m: Seq<u8>)
    ensures
        color_bytes(m).len() == 3 * m.len(),
    decreases m.len(),
{
    if m.len() > 0 {
        lemma_color_bytes_len(m.drop_last());
    }
}

/// The batched gather agrees with the scalar lookup: the bytes at position
/// `3 * i` of a colorized mask are exactly the table color of the id at
/// position `i`.
pub proof fn lemma_color_bytes_index(m: Seq<u8>, i: int)
    requires
        0 <= i < m.len(),
    ensures
        color_bytes(m)[3 * i] == table_color(m[i]).r,
        color_bytes(m)[3 * i + 1] == table_color(m[i]).g,
        color_bytes(m)[3 * i + 2] == table_color(m[i]).b,
    decreases m.len(),
{
    lemma_color_bytes_len(m.drop_last());
    if i < m.len() - 1 {
        lemma_color_bytes_index(m.drop_last(), i);
    }
}

/// The fixed mapping from class id to color, held as a dense table so that a
/// whole mask can be gathered in one pass.  Immutable after construction.
pub struct ColorTable {
    entries: Vec<Rgb>,
}

impl ColorTable {
    /// The table holds one entry per class, and each entry is the color the
    /// labeling assigns to that class.
    pub closed spec fn wf(&self) -> bool {
        &&& self.entries@.len() == NUM_CLASSES
        &&& forall|i: int| 0 <= i < NUM_CLASSES ==> self.entries@[i] == table_color(i as u8)
    }

    /// The color of one id, as executable code.
    fn color_literal(id: u8) -> (c: Rgb)
        ensures
            c == table_color(id),
    {
        if id == 0 {
            Rgb { r: 128, g: 64, b: 128 }
        } else if id == 1 {
            Rgb { r: 244, g: 35, b: 232 }
        } else if id == 2 {
            Rgb { r: 70, g: 70, b: 70 }
        } else if id == 11 {
            Rgb { r: 220, g: 20, b: 60 }
        } else if id == 12 {
            Rgb { r: 255, g: 0, b: 0 }
        } else if id == 13 {
            Rgb { r: 0, g: 0, b: 142 }
        } else if id == 14 {
            Rgb { r: 0, g: 0, b: 70 }
        } else if id == 15 {
            Rgb { r: 0, g: 60, b: 100 }
        } else if id == 16 {
            Rgb { r: 0, g: 80, b: 100 }
        } else if id == 17 {
            Rgb { r: 0, g: 0, b: 230 }
        } else if id == 18 {
            Rgb { r: 119, g: 11, b: 32 }
        } else {
            Rgb { r: 30, g: 15, b: 60 }
        }
    }

    /// Builds the fixed table.
    pub fn new() -> (t: ColorTable)
        ensures
            t.wf(),
    {
        let mut entries: Vec<Rgb> = Vec::with_capacity(NUM_CLASSES);
        let mut id: usize = 0;
        while id < NUM_CLASSES
            invariant
                id <= NUM_CLASSES,
                entries@.len() == id,
                forall|i: int| 0 <= i < id ==> entries@[i] == table_color(i as u8),
            decreases NUM_CLASSES - id,
        {
            entries.push(Self::color_literal(id as u8));
            id = id + 1;
        }
        ColorTable { entries }
    }

    /// Scalar lookup: the configured color for an id in range, the default
    /// color for any other id.
    pub fn lookup(&self, id: u8) -> (c: Rgb)
        requires
            self.wf(),
        ensures
            c == table_color(id),
    {
        if (id as usize) < NUM_CLASSES {
            self.entries[id as usize]
        } else {
            Rgb { r: 30, g: 15, b: 60 }
        }
    }

    /// Batched gather: the colors of all ids at once, three bytes per id, in
    /// mask order.
    pub fn gather(&self, ids: &Vec<u8>) -> (out: Vec<u8>)
        requires
            self.wf(),
        ensures
            out@.len() == 3 * ids@.len(),
            out@ == color_bytes(ids@),
            forall|i: int|
                0 <= i < ids@.len() ==> out@[3 * i] == table_color(#[trigger] ids@[i]).r
                    && out@[3 * i + 1] == table_color(ids@[i]).g
                    && out@[3 * i + 2] == table_color(ids@[i]).b,
    {
        let mut out: Vec<u8> = Vec::new();
        let mut i: usize = 0;
        while i < ids.len()
            invariant
                self.wf(),
                i <= ids@.len(),
                out@.len() == 3 * i,
                out@ == color_bytes(ids@.subrange(0, i as int)),
            decreases ids@.len() - i,
        {
            let c = self.lookup(ids[i]);
            out.push(c.r);
            out.push(c.g);
            out.push(c.b);
            proof {
                let pre = ids@.subrange(0, i as int);
                let cur = ids@.subrange(0, i + 1);
                assert(cur.drop_last() =~= pre);
                assert(out@ =~= color_bytes(pre) + rgb_bytes(table_color(ids@[i as int])));
            }
            i = i + 1;
        }
        proof {
            assert(ids@.subrange(0, ids@.len() as int) =~= ids@);
            assert forall|j: int|
                0 <= j < ids@.len() implies out@[3 * j] == table_color(#[trigger] ids@[j]).r
                    && out@[3 * j + 1] == table_color(ids@[j]).g
                    && out@[3 * j + 2] == table_color(ids@[j]).b by {
                lemma_color_bytes_index(ids@, j);
            }
        }
        out
    }
}

} // verus!
