use vstd::prelude::*;

use crate::point::Point;

verus! {

/// The polylines held in a vector of point vectors, as sequences.
pub open spec fn lines_view(lines: Seq<Vec<Point>>) -> Seq<Seq<Point>> {
    Seq::new(lines.len(), |i: int| lines[i]@)
}

/// The polylines before a frame is handled: an empty sequence gains one
/// empty polyline, so that there is always a polyline in progress.
pub open spec fn with_current_line(lines: Seq<Seq<Point>>) -> Seq<Seq<Point>> {
    if lines.len() == 0 {
        seq![Seq::empty()]
    } else {
        lines
    }
}

/// The polylines after one frame. `hover` is the canvas-space position of
/// the pointer when it is over the canvas. A hovered position is appended to
/// the polyline in progress unless it equals that polyline's last point; with
/// no hover, a non-empty polyline in progress is closed by appending a new
/// empty one.
pub open spec fn step_lines(lines: Seq<Seq<Point>>, hover: Option<Point>) -> Seq<Seq<Point>> {
    let l = with_current_line(lines);
    let cur = l.last();
    match hover {
        Some(p) => {
            if cur.len() > 0 && cur.last() == p {
                l
            } else {
                l.update(l.len() - 1, cur.push(p))
            }
        },
        None => {
            if cur.len() > 0 {
                l.push(Seq::empty())
            } else {
                l
            }
        },
    }
}

/// Whether a frame changes what is drawn: a point was appended, or the
/// polyline in progress was closed.
pub open spec fn step_changes(lines: Seq<Seq<Point>>, hover: Option<Point>) -> bool {
    let cur = with_current_line(lines).last();
    match hover {
        Some(p) => !(cur.len() > 0 && cur.last() == p),
        None => cur.len() > 0,
    }
}

/// The polylines after a sequence of frames, in order.
pub open spec fn run_lines(lines: Seq<Seq<Point>>, hovers: Seq<Option<Point>>) -> Seq<Seq<Point>>
    decreases hovers.len(),
{
    if hovers.len() == 0 {
        lines
    } else {
        step_lines(run_lines(lines, hovers.drop_last()), hovers.last())
    }
}

/// Whether a polyline is drawn: it needs at least two points.
pub open spec fn is_drawn(line: Seq<Point>) -> bool {
    line.len() >= 2
}

/// The polylines that are drawn, in order.
pub open spec fn drawn_lines(lines: Seq<Seq<Point>>) -> Seq<Seq<Point>> {
    lines.filter(|line: Seq<Point>| is_drawn(line))
}

/// Handles one frame of the canvas: see `step_lines`. Returns whether what is
/// drawn changed.
pub fn record_frame(lines: &mut Vec<Vec<Point>>, hover: Option<Point>) -> (changed: bool)
    ensures
        lines_view(final(lines)@) == step_lines(lines_view(old(lines)@), hover),
        changed == step_changes(lines_view(old(lines)@), hover),
{
    let ghost before = lines_view(lines@);
    if lines.len() == 0 {
        lines.push(Vec::new());
    }
    assert(lines_view(lines@) =~= with_current_line(before));
    let ghost l = lines_view(lines@);
    let mut cur = lines.pop().unwrap();
    assert(lines_view(lines@) =~= l.drop_last());
    let changed = match hover {
        Some(p) => {
            let n = cur.len();
            if n > 0 && cur[n - 1] == p {
                false
            } else {
                cur.push(p);
                true
            }
        },
        None => cur.len() > 0,
    };
    lines.push(cur);
    if hover.is_none() && changed {
        lines.push(Vec::new());
    }
    assert(lines_view(lines@) =~= step_lines(before, hover));
    changed
}


/// A copy of one polyline.
fn copy_line(line: &Vec<Point>) -> (r: Vec<Point>)
    ensures
        r@ == line@,
{
    let mut r: Vec<Point> = Vec::new();
    let mut i: usize = 0;
    while i < line.len()
        invariant
            i <= line.len(),
            r@ == line@.take(i as int),
        decreases line.len() - i,
    {
        r.push(line[i]);
        i = i + 1;
        assert(r@ =~= line@.take(i as int));
    }
    assert(line@.take(i as int) =~= line@);
    r
}

/// The polylines that are drawn: those of at least two points, in order.
pub fn drawn(lines: &Vec<Vec<Point>>) -> (r: Vec<Vec<Point>>)
    ensures
        lines_view(r@) == drawn_lines(lines_view(lines@)),
{
    let ghost all = lines_view(lines@);
    let mut r: Vec<Vec<Point>> = Vec::new();
    let mut i: usize = 0;
    proof {
        reveal(Seq::filter);
        assert(all.take(0) =~= Seq::<Seq<Point>>::empty());
        assert(lines_view(r@) =~= drawn_lines(all.take(0)));
    }
    while i < lines.len()
        invariant
            i <= lines.len(),
            all == lines_view(lines@),
            lines_view(r@) == drawn_lines(all.take(i as int)),
        decreases lines.len() - i,
    {
        let ghost before = lines_view(r@);
        proof {
            reveal(Seq::filter);
            assert(all.take(i + 1).drop_last() =~= all.take(i as int));
            assert(all.take(i + 1).last() == lines@[i as int]@);
        }
        if lines[i].len() >= 2 {
            let c = copy_line(&lines[i]);
            r.push(c);
            assert(lines_view(r@) =~= before.push(lines@[i as int]@));
        }
        i = i + 1;
    }
    assert(all.take(i as int) =~= all);
    r
}


/// Hovering over `points` from an empty canvas, with no two consecutive
/// points equal and without leaving the canvas, yields exactly one polyline,
/// and that polyline is `points`.
pub proof fn lemma_hover_run_single_line(points: Seq<Point>)
    requires
        points.len() > 0,
        forall|i: int| 0 <= i < points.len() - 1 ==> #[trigger] points[i] != points[i + 1],
    ensures
        run_lines(Seq::empty(), points.map_values(|p: Point| Some(p))) == seq![points],
    decreases points.len(),
{
    let hovers = points.map_values(|p: Point| Some(p));
    let rest = points.drop_last();
    assert(hovers.drop_last() =~= rest.map_values(|p: Point| Some(p)));
    if points.len() == 1 {
        assert(run_lines(Seq::empty(), hovers.drop_last()) =~= Seq::empty());
        assert(Seq::<Point>::empty().push(points[0]) =~= points);
    } else {
        lemma_hover_run_single_line(rest);
        let before = seq![rest];
        assert(before.last().last() == points[points.len() - 2]);
        assert(rest.push(points.last()) =~= points);
        assert(before.update(0, points) =~= seq![points]);
    }
}

/// Once the polyline in progress holds a point, a frame without the pointer
/// over the canvas keeps every polyline and starts a new, empty one.
pub proof fn lemma_leaving_starts_new_line(lines: Seq<Seq<Point>>)
    requires
        lines.len() > 0,
        lines.last().len() > 0,
    ensures
        step_lines(lines, None) == lines.push(Seq::empty()),
        step_lines(lines, None).last().len() == 0,
        step_changes(lines, None),
{
}

/// No polyline of fewer than two points is drawn.
pub proof fn lemma_drawn_lines_have_two_points(lines: Seq<Seq<Point>>)
    ensures
        forall|i: int| 0 <= i < drawn_lines(lines).len() ==> #[trigger] drawn_lines(lines)[i].len() >= 2,
{
    assert forall|i: int| 0 <= i < drawn_lines(lines).len() implies #[trigger] drawn_lines(lines)[i].len() >= 2 by {
        lines.lemma_filter_pred(|line: Seq<Point>| is_drawn(line), i);
    }
}

} // verus!
