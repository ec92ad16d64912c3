//! The interface that every checksum accumulator offers, whatever the width
//! of the register it sums in.

use super::model::CSumState;
use vstd::prelude::*;

verus! {

/// A resumable Internet checksum. What an accumulator returns depends on the
/// bytes fed to it alone, not on how they were cut into slices nor on the
/// width it works in.
pub trait CSum: Default + Clone + Copy {
    /// The state that the accumulator stands for.
    spec fn state(self) -> CSumState;

    /// Every accumulator holds a folded sum.
    proof fn lemma_state_wf(self)
        ensures
            self.state().wf(),
    ;

    /// An accumulator that was fed nothing.
    fn new() -> (r: Self)
        ensures
            r.state() == CSumState::empty(),
    ;

    /// The checksum of the bytes fed so far, in the machine's byte order.
    fn result(self) -> (r: u16)
        ensures
            r == self.state().result(),
            (!r == 0) == self.state().verifies(),
    ;

    /// Feeds `data`, which continues the stream where the last slice ended.
    fn add(self, data: &[u8]) -> (r: Self)
        ensures
            r.state() == self.state().feed(data@),
    ;
}

} // verus!
