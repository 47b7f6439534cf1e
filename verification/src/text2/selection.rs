//! The caret and the selected range of a text.

use std::ops::Range;
use vstd::prelude::*;
use vstd::utf8::is_char_boundary;

verus! {

/// On which side of a line wrap a caret at the wrap position is drawn.
#[derive(Debug, Hash, PartialEq, Eq, Clone, Copy, Structural)]
pub enum Affinity {
    /// With the end of the earlier line.
    Upstream,
    /// With the start of the later line.
    Downstream,
}

/// A selection of text: two byte offsets, of which `active` is the end that
/// moves. Where the two are equal the selection is a caret.
#[derive(Debug, Hash, PartialEq, Eq, Clone, Copy, Structural)]
pub struct Selection {
    /// The end of the selection that stays in place.
    pub anchor: usize,
    /// The end of the selection that moves, where the caret is drawn.
    pub active: usize,
    /// The side of a line wrap that the active end belongs to.
    pub active_affinity: Affinity,
    /// The column that vertical movement tries to keep, if any.
    pub h_pos: Option<u16>,
}

impl Selection {
    /// The smaller of the two offsets.
    pub open spec fn spec_min(&self) -> usize {
        if self.anchor <= self.active {
            self.anchor
        } else {
            self.active
        }
    }

    /// The larger of the two offsets.
    pub open spec fn spec_max(&self) -> usize {
        if self.anchor <= self.active {
            self.active
        } else {
            self.anchor
        }
    }

    /// Whether the selection is empty.
    pub open spec fn spec_is_caret(&self) -> bool {
        self.anchor == self.active
    }

    /// Whether both offsets lie within `text` and between two of its
    /// characters, `text` being valid UTF-8.
    pub open spec fn valid_in(&self, text: Seq<u8>) -> bool {
        &&& self.anchor <= text.len()
        &&& self.active <= text.len()
        &&& is_char_boundary(text, self.anchor as int)
        &&& is_char_boundary(text, self.active as int)
    }

    /// A selection from `anchor` to `active`, with no horizontal position.
    pub fn new(anchor: usize, active: usize, active_affinity: Affinity) -> (selection: Selection)
        ensures
            selection == (Selection { anchor, active, active_affinity, h_pos: None }),
    {
        Selection { anchor, active, active_affinity, h_pos: None }
    }

    /// An empty selection at `offset`, with no horizontal position.
    pub fn caret(offset: usize, active_affinity: Affinity) -> (selection: Selection)
        ensures
            selection == (Selection {
                anchor: offset,
                active: offset,
                active_affinity,
                h_pos: None,
            }),
    {
        Selection { anchor: offset, active: offset, active_affinity, h_pos: None }
    }

    /// Whether the selection is empty.
    #[verifier::when_used_as_spec(spec_is_caret)]
    pub fn is_caret(&self) -> (empty: bool)
        ensures
            empty == self.spec_is_caret(),
    {
        self.anchor == self.active
    }

    /// The smaller of the two offsets.
    #[verifier::when_used_as_spec(spec_min)]
    pub fn min(&self) -> (offset: usize)
        ensures
            offset == self.spec_min(),
    {
        if self.anchor <= self.active {
            self.anchor
        } else {
            self.active
        }
    }

    /// The larger of the two offsets.
    #[verifier::when_used_as_spec(spec_max)]
    pub fn max(&self) -> (offset: usize)
        ensures
            offset == self.spec_max(),
    {
        if self.anchor <= self.active {
            self.active
        } else {
            self.anchor
        }
    }

    /// The selected bytes: from the smaller offset up to the larger one.
    pub fn range(&self) -> (range: Range<usize>)
        ensures
            range.start == self.spec_min(),
            range.end == self.spec_max(),
    {
        self.min()..self.max()
    }
}

/// The range of a selection does not depend on which of its ends is active:
/// a selection and the one with the two ends exchanged have the same smaller
/// and the same larger offset, the smaller one being no greater than the
/// larger.
pub proof fn lemma_range_ignores_direction(selection: Selection)
    ensures
        ({
            let flipped = Selection {
                anchor: selection.active,
                active: selection.anchor,
                ..selection
            };
            &&& flipped.spec_min() == selection.spec_min()
            &&& flipped.spec_max() == selection.spec_max()
        }),
        selection.spec_min() <= selection.spec_max(),
        selection.spec_min() == selection.anchor || selection.spec_min() == selection.active,
        selection.spec_max() == selection.anchor || selection.spec_max() == selection.active,
        selection.anchor != selection.active ==> selection.spec_min() < selection.spec_max(),
{
}

} // verus!
