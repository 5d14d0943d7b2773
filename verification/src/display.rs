//! Glyphs for the seven-segment display and their segment patterns.

use vstd::prelude::*;

verus! {

/// Possible states for the seven-segment display.
///
/// Each named variant stands for one glyph; `Custom` carries an arbitrary
/// 7-element segment pattern. Of the named variants only `One` currently
/// resolves to a lit pattern; the others resolve to all segments off.
#[allow(missing_docs, non_camel_case_types)]
#[derive(Debug, Clone, Copy, PartialEq, Eq)]
pub enum SegmentDisplay {
    Zero,
    One,
    Two,
    Thre,
    Four,
    Fife,
    Six,
    Six_Tail,
    Seven,
    Seven_Tail,
    Eight,
    Nine,
    A,
    b,
    C,
    c,
    d,
    E,
    F,
    G,
    H,
    h,
    I,
    J,
    L,
    n,
    O,
    o,
    P,
    q,
    r,
    S,
    t,
    U,
    u,
    y,
    Custom([bool; 7]),
}

/// The 7-element segment pattern that a display variant resolves to:
/// `One` lights two segments, `Custom(p)` is exactly `p`, and every other
/// named variant is all segments off.
pub open spec fn spec_segment_pattern(display: SegmentDisplay) -> Seq<bool> {
    match display {
        SegmentDisplay::One => seq![false, false, false, false, true, true, false],
        SegmentDisplay::Custom(p) => p@,
        _ => seq![false, false, false, false, false, false, false],
    }
}

impl SegmentDisplay {
    /// Resolves this variant to the 7 segment levels it drives.
    pub fn segment_pattern(self) -> (r: [bool; 7])
        ensures
            r@ == spec_segment_pattern(self),
    {
        match self {
            SegmentDisplay::One => {
                let r: [bool; 7] = [false, false, false, false, true, true, false];
                proof {
                    assert(r@ =~= spec_segment_pattern(self));
                }
                r
            },
            SegmentDisplay::Custom(p) => p,
            _ => {
                let r: [bool; 7] = [false; 7];
                proof {
                    assert(r@ =~= spec_segment_pattern(self));
                }
                r
            },
        }
    }
}

} // verus!
