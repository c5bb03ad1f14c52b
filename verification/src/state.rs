//! The strip: its segments, in the order in which they were given.

use vstd::prelude::*;

use crate::color::Color;
use crate::segment::{Blend, Segment};

verus! {

/// An ordered collection of segments. Positions are stable: nothing here
/// reorders or removes a segment, and equal segments may occur more than
/// once.
#[derive(Debug, PartialEq, Eq, Hash)]
pub struct State {
    segments: Vec<Segment>,
}

impl View for State {
    type V = Seq<Segment>;

    closed spec fn view(&self) -> Seq<Segment> {
        self.segments@
    }
}

impl Clone for State {
    /// A strip of the same segments in the same order.
    fn clone(&self) -> (s: Self)
        ensures
            s@ == self@,
    {
        let mut segments: Vec<Segment> = Vec::new();
        let mut i: usize = 0;
        while i < self.segments.len()
            invariant
                i <= self.segments@.len(),
                segments@ == self.segments@.subrange(0, i as int),
            decreases self.segments@.len() - i,
        {
            segments.push(self.segments[i]);
            proof {
                assert(segments@ =~= self.segments@.subrange(0, i + 1));
            }
            i += 1;
        }
        proof {
            assert(segments@ =~= self.segments@);
        }
        State { segments }
    }
}

impl State {
    /// The strip made of `segments`, in their order.
    pub fn new(segments: Vec<Segment>) -> (s: State)
        ensures
            s@ == segments@,
    {
        State { segments }
    }

    /// The strip without segments.
    pub fn new_empty() -> (s: State)
        ensures
            s@ == Seq::<Segment>::empty(),
    {
        State { segments: Vec::new() }
    }

    /// The number of segments.
    pub fn len(&self) -> (n: usize)
        ensures
            n == self@.len(),
    {
        self.segments.len()
    }

    /// The segment at `index`, if there is one.
    pub fn get(&self, index: usize) -> (r: Option<&Segment>)
        ensures
            index < self@.len() ==> r == Some(&self@[index as int]),
            index >= self@.len() ==> r is None,
    {
        if index < self.segments.len() {
            Some(&self.segments[index])
        } else {
            None
        }
    }

    /// All segments, in order.
    pub fn segments(&self) -> (v: &Vec<Segment>)
        ensures
            v@ == self@,
    {
        &self.segments
    }

    /// Adds `segment` after the last one.
    pub fn push(&mut self, segment: Segment)
        ensures
            final(self)@ == old(self)@.push(segment),
    {
        self.segments.push(segment);
    }

    /// Puts `segment` in the place of the one at `index` and returns the one
    /// that was there. Without a segment at `index` nothing changes.
    pub fn replace(&mut self, index: usize, segment: Segment) -> (r: Option<Segment>)
        ensures
            index < old(self)@.len() ==> r == Some(old(self)@[index as int]) && final(self)@
                == old(self)@.update(index as int, segment),
            index >= old(self)@.len() ==> r is None && final(self)@ == old(self)@,
    {
        if index < self.segments.len() {
            let before = self.segments[index];
            self.segments.set(index, segment);
            Some(before)
        } else {
            None
        }
    }

    /// Gives the segment at `index` new endpoint colours and leaves the rest
    /// of it, and every other segment, as it was. Returns whether there was
    /// a segment at `index`.
    pub fn set_colors(&mut self, index: usize, colors: [Color; 2]) -> (found: bool)
        ensures
            found == (index < old(self)@.len()),
            final(self)@.len() == old(self)@.len(),
            forall|i: int|
                0 <= i < old(self)@.len() && i != index ==> final(self)@[i] == old(self)@[i],
            found ==> final(self)@[index as int]@ == (crate::segment::SegmentView {
                color_a: colors[0],
                color_b: colors[1],
                ..old(self)@[index as int]@
            }),
    {
        if index < self.segments.len() {
            let mut segment = self.segments[index];
            segment.set_colors(colors);
            self.segments.set(index, segment);
            true
        } else {
            false
        }
    }

    /// The blend of every segment `at_millis` milliseconds after the clock
    /// started, in the order of the segments.
    pub fn colors_at(&self, at_millis: u128) -> (frame: Vec<Blend>)
        ensures
            frame@.len() == self@.len(),
            forall|i: int|
                0 <= i < self@.len() ==> frame@[i] == self@[i]@.blend_at(at_millis as int),
    {
        let mut frame: Vec<Blend> = Vec::new();
        let mut i: usize = 0;
        while i < self.segments.len()
            invariant
                i <= self.segments@.len(),
                frame@.len() == i,
                forall|j: int|
                    0 <= j < i ==> frame@[j] == self.segments@[j]@.blend_at(at_millis as int),
            decreases self.segments@.len() - i,
        {
            frame.push(self.segments[i].color_at(at_millis));
            i += 1;
        }
        frame
    }
}

} // verus!
