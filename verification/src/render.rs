//! The render path: a snapshot of the history becomes the vertices of a line.
//!
//! The line always has as many vertices as the history has capacity, so its
//! geometry is the same from frame to frame. Where the snapshot has no sample
//! yet, the vertex carries the silence value that the caller supplies. A vertex
//! records where it stands along the line and which sample it draws; scaling
//! both to the coordinates of a canvas is left to the caller.

use vstd::prelude::*;

verus! {

/// One vertex of the waveform line: its position along the line, counted from
/// the oldest sample, and the sample value drawn there.
#[derive(Debug, PartialEq)]
pub struct RenderPoint<T> {
    pub index: usize,
    pub sample: T,
}

/// The value drawn at `index`: the sample of the snapshot there, or silence
/// where the snapshot does not reach.
pub open spec fn plotted<T>(snapshot: Seq<T>, index: int, silence: T) -> T {
    if 0 <= index < snapshot.len() {
        snapshot[index]
    } else {
        silence
    }
}

/// The line drawn for a snapshot: `capacity` vertices, the one at position `i`
/// carrying index `i` and the value plotted there.
pub open spec fn rendered<T>(snapshot: Seq<T>, capacity: usize, silence: T) -> Seq<RenderPoint<T>> {
    Seq::new(
        capacity as nat,
        |i: int| RenderPoint { index: i as usize, sample: plotted(snapshot, i, silence) },
    )
}

/// Builds the line for `snapshot`. It has exactly `capacity` vertices whatever
/// the length of the snapshot; samples beyond `capacity` are not drawn.
pub fn render<T: Copy>(snapshot: &[T], capacity: usize, silence: T) -> (points: Vec<RenderPoint<T>>)
    ensures
        points@.len() == capacity,
        points@ == rendered(snapshot@, capacity, silence),
{
    let available: usize = snapshot.len();
    let mut points: Vec<RenderPoint<T>> = Vec::new();
    let mut index: usize = 0;
    while index < capacity
        invariant
            available == snapshot@.len(),
            index <= capacity,
            points@ == rendered(snapshot@, index, silence),
        decreases capacity - index,
    {
        let sample = if index < available {
            snapshot[index]
        } else {
            silence
        };
        points.push(RenderPoint { index, sample });
        proof {
            assert(points@ =~= rendered(snapshot@, (index + 1) as usize, silence));
        }
        index += 1;
    }
    points
}

/// Silence padding: every vertex at or beyond the end of the snapshot carries
/// the silence value; for an empty snapshot that is every vertex of the line.
pub proof fn lemma_silence_padding<T>(snapshot: Seq<T>, capacity: usize, silence: T)
    ensures
        forall|i: int|
            snapshot.len() <= i < capacity ==> (#[trigger] rendered(
                snapshot,
                capacity,
                silence,
            )[i]).sample == silence,
        snapshot.len() == 0 ==> forall|i: int|
            0 <= i < capacity ==> (#[trigger] rendered(snapshot, capacity, silence)[i]).sample
                == silence,
{
}

/// Edge positions: the first vertex of a line stands at index zero and the last
/// at index `capacity - 1`, the two ends of the range over which a canvas
/// spreads the line from its left edge to its right edge.
pub proof fn lemma_edge_positions<T>(snapshot: Seq<T>, capacity: usize, silence: T)
    requires
        capacity > 0,
    ensures
        rendered(snapshot, capacity, silence).first().index == 0,
        rendered(snapshot, capacity, silence).last().index == capacity - 1,
        forall|i: int|
            0 <= i < capacity ==> (#[trigger] rendered(snapshot, capacity, silence)[i]).index == i,
{
}

} // verus!
