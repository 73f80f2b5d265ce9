use vstd::prelude::*;

verus! {

/// `i` is the first position of a smallest key of `keys`.
pub open spec fn is_first_min(keys: Seq<u64>, i: int) -> bool {
    &&& 0 <= i < keys.len()
    &&& forall|j: int| 0 <= j < keys.len() ==> keys[i] <= #[trigger] keys[j]
    &&& forall|j: int| 0 <= j < i ==> keys[i] < #[trigger] keys[j]
}

/// The position of the first smallest key: a later key replaces the best one
/// only when it is strictly smaller, so ties go to the earliest position.
/// `None` when there are no keys.
pub fn first_min_index(keys: &Vec<u64>) -> (r: Option<usize>)
    ensures
        r is None <==> keys@.len() == 0,
        r matches Some(i) ==> is_first_min(keys@, i as int),
{
    if keys.len() == 0 {
        return None;
    }
    let mut best: usize = 0;
    let mut i: usize = 1;
    while i < keys.len()
        invariant
            1 <= i <= keys@.len(),
            best < i,
            forall|j: int| 0 <= j < i ==> keys@[best as int] <= #[trigger] keys@[j],
            forall|j: int| 0 <= j < best ==> keys@[best as int] < #[trigger] keys@[j],
        decreases keys@.len() - i,
    {
        if keys[i] < keys[best] {
            best = i;
        }
        i = i + 1;
    }
    Some(best)
}

/// Where a point projected onto a line lies on it.
///
/// The point lies on the segment from vertex `index` to vertex `index + 1`.
/// `position` orders points within one segment: a larger value lies further
/// along it. `at_start` and `at_end` record that the point coincides with the
/// segment's first or last vertex.
#[derive(Clone, Copy, Debug, PartialEq, Eq, Structural)]
pub struct Cut {
    pub index: usize,
    pub position: u64,
    pub at_start: bool,
    pub at_end: bool,
}

impl Cut {
    /// The cut lies on a segment of a line with `len` vertices.
    pub open spec fn on_line(self, len: nat) -> bool {
        self.index + 1 < len
    }
}

/// `a` comes no later than `b` in the direction of the line.
pub open spec fn precedes(a: Cut, b: Cut) -> bool {
    a.index < b.index || (a.index == b.index && a.position <= b.position)
}

/// The part of `line` from the point `a`, cut at `ca`, to the point `b`, cut
/// at `cb`, where `ca` comes no later than `cb`: `a`, then the vertices after
/// the segment of `ca` up to the first vertex of the segment of `cb` (without
/// the first of them when `a` coincides with it), then `b` unless it coincides
/// with that last vertex.
pub open spec fn between<P>(line: Seq<P>, a: P, ca: Cut, b: P, cb: Cut) -> Seq<P> {
    let l = ca.index + 1;
    let r = cb.index as int;
    let inner = if l <= r {
        line.subrange(if ca.at_end { l + 1 } else { l }, r + 1)
    } else {
        Seq::<P>::empty()
    };
    let tail = if cb.at_start { Seq::<P>::empty() } else { seq![b] };
    seq![a] + inner + tail
}

/// The part of `line` between the points `a` and `b`, cut at `ca` and `cb`,
/// taken in the direction of the line whichever of the two is given first.
pub open spec fn sliced<P>(line: Seq<P>, a: P, ca: Cut, b: P, cb: Cut) -> Seq<P> {
    if precedes(ca, cb) {
        between(line, a, ca, b, cb)
    } else {
        between(line, b, cb, a, ca)
    }
}

fn push_between<P: Copy>(line: &Vec<P>, a: P, ca: Cut, b: P, cb: Cut) -> (r: Vec<P>)
    requires
        ca.on_line(line@.len()),
        cb.on_line(line@.len()),
        precedes(ca, cb),
    ensures
        r@ == between(line@, a, ca, b, cb),
{
    let n = line.len();
    let mut out: Vec<P> = Vec::new();
    out.push(a);
    let l = ca.index + 1;
    let r = cb.index;
    if l <= r {
        let first: usize = if ca.at_end { l + 1 } else { l };
        let mut i: usize = first;
        while i <= r
            invariant
                first <= i <= r + 1,
                r + 1 < n,
                n == line@.len(),
                out@ == seq![a] + line@.subrange(first as int, i as int),
            decreases r + 1 - i,
        {
            out.push(line[i]);
            proof {
                assert(line@.subrange(first as int, i + 1) =~= line@.subrange(first as int, i as int).push(line@[i as int]));
            }
            i = i + 1;
        }
    }
    if !cb.at_start {
        out.push(b);
    }
    out
}

/// The part of `line` between the points `start` and `stop`, cut at
/// `start_cut` and `stop_cut`, in the direction of the line: the two cuts are
/// swapped when `stop_cut` comes first.
pub fn slice_line<P: Copy>(line: &Vec<P>, start: P, start_cut: Cut, stop: P, stop_cut: Cut) -> (r: Vec<P>)
    requires
        start_cut.on_line(line@.len()),
        stop_cut.on_line(line@.len()),
    ensures
        r@ == sliced(line@, start, start_cut, stop, stop_cut),
{
    if start_cut.index > stop_cut.index || (start_cut.index == stop_cut.index && start_cut.position > stop_cut.position) {
        push_between(line, stop, stop_cut, start, start_cut)
    } else {
        push_between(line, start, start_cut, stop, stop_cut)
    }
}

/// Two cuts at distinct places give the same slice in either order.
pub proof fn lemma_slice_swap<P>(line: Seq<P>, a: P, ca: Cut, b: P, cb: Cut)
    requires
        ca.index != cb.index || ca.position != cb.position,
    ensures
        sliced(line, a, ca, b, cb) == sliced(line, b, cb, a, ca),
{
}

/// Cutting a line at its first vertex, on the first segment, and at its last
/// vertex, on the last segment, gives the whole line back, provided neither
/// end segment has its two vertices equal.
pub proof fn lemma_slice_whole_line<P>(line: Seq<P>, ca: Cut, cb: Cut)
    requires
        line.len() >= 2,
        ca.index == 0,
        cb.index == line.len() - 2,
        precedes(ca, cb),
        !ca.at_end,
        !cb.at_start,
    ensures
        sliced(line, line[0], ca, line[line.len() - 1], cb) == line,
{
    let n = line.len() as int;
    let s = sliced(line, line[0], ca, line[n - 1], cb);
    if n == 2 {
        assert(s =~= line);
    } else {
        assert(line.subrange(1, n - 1).len() == n - 2);
        assert(s =~= line);
    }
}

} // verus!
