//! Two wires laid out on a grid from a common starting point: where they
//! cross, which crossing is nearest, and how far along a wire a point lies.

use vstd::prelude::*;
use crate::moves::{parse_move, spec_parse_move, Direction, Move};

verus! {

/// A point of the grid.
#[derive(Clone, Copy, Debug, PartialEq, Eq, Structural)]
pub struct Coordinate {
    pub x: usize,
    pub y: usize,
}

/// The points of `line1` that also lie on `line2`, in the order and as often
/// as `line1` visits them.
pub open spec fn crossings(line1: Seq<Coordinate>, line2: Seq<Coordinate>) -> Seq<Coordinate> {
    line1.filter(|c: Coordinate| line2.contains(c))
}

/// Whether `point` lies on `line`.
pub fn lies_on(line: &[Coordinate], point: &Coordinate) -> (found: bool)
    ensures
        found == line@.contains(*point),
{
    let mut i: usize = 0;
    while i < line.len()
        invariant
            i <= line.len(),
            forall|j: int| 0 <= j < i ==> line@[j] != *point,
        decreases line.len() - i,
    {
        if line[i] == *point {
            return true;
        }
        i = i + 1;
    }
    false
}

/// Collects the points of `line1` that lie on `line2`.
pub fn find_crossings_from_coordinates(line1: &[Coordinate], line2: &[Coordinate]) -> (result: Vec<
    Coordinate,
>)
    ensures
        result@ == crossings(line1@, line2@),
{
    let mut result: Vec<Coordinate> = Vec::new();
    let mut i: usize = 0;
    proof {
        reveal(Seq::filter);
    }
    while i < line1.len()
        invariant
            i <= line1.len(),
            result@ == crossings(line1@.take(i as int), line2@),
        decreases line1.len() - i,
    {
        let coord = line1[i];
        proof {
            reveal(Seq::filter);
            assert(line1@.take(i + 1).drop_last() =~= line1@.take(i as int));
            assert(line1@.take(i + 1).last() == coord);
        }
        if lies_on(line2, &coord) {
            result.push(coord);
        }
        i = i + 1;
    }
    proof {
        assert(line1@.take(i as int) =~= line1@);
    }
    result
}

/// The distance between two points when only moves along the grid count.
pub open spec fn manhattan(a: Coordinate, b: Coordinate) -> int {
    (if a.x >= b.x {
        a.x - b.x
    } else {
        b.x - a.x
    }) + (if a.y >= b.y {
        a.y - b.y
    } else {
        b.y - a.y
    })
}

/// Whether `score` is the smallest distance from `central_point` to a
/// crossing other than `central_point` itself, where `i32::MAX` stands for every
/// distance from there on and for "no such crossing".
pub open spec fn is_best_score(score: int, crossings: Seq<Coordinate>, central_point: Coordinate) -> bool {
    &&& score <= i32::MAX
    &&& forall|i: int|
        0 <= i < crossings.len() && crossings[i] != central_point ==> score <= manhattan(
            #[trigger] crossings[i],
            central_point,
        )
    &&& score == i32::MAX || exists|i: int|
        0 <= i < crossings.len() && crossings[i] != central_point && score == manhattan(
            #[trigger] crossings[i],
            central_point,
        )
}

/// The distance between `a` and `b`, or `i32::MAX` if it is that large or
/// larger.
pub fn distance(a: &Coordinate, b: &Coordinate) -> (d: i32)
    ensures
        d == (if manhattan(*a, *b) < i32::MAX {
            manhattan(*a, *b)
        } else {
            i32::MAX as int
        }),
{
    let dx: usize = if a.x >= b.x {
        a.x - b.x
    } else {
        b.x - a.x
    };
    let dy: usize = if a.y >= b.y {
        a.y - b.y
    } else {
        b.y - a.y
    };
    let limit: usize = 0x7fff_ffff;
    if dx >= limit || dy >= limit - dx {
        i32::MAX
    } else {
        (dx + dy) as i32
    }
}

/// The smallest distance from `central_point` to a crossing other than
/// itself; `i32::MAX` if there is none.
pub fn get_best_score(crossings: &[Coordinate], central_point: &Coordinate) -> (best_score: i32)
    ensures
        is_best_score(best_score as int, crossings@, *central_point),
{
    let mut best_score: i32 = i32::MAX;
    let mut i: usize = 0;
    while i < crossings.len()
        invariant
            i <= crossings.len(),
            is_best_score(best_score as int, crossings@.take(i as int), *central_point),
        decreases crossings.len() - i,
    {
        let n = crossings[i];
        let ghost before = crossings@.take(i as int);
        let ghost after = crossings@.take(i + 1);
        proof {
            assert(after[i as int] == n);
            assert forall|j: int| 0 <= j < i implies after[j] == before[j] by {}
        }
        if !(n == *central_point) {
            let score = distance(&n, central_point);
            if score < best_score {
                best_score = score;
            }
        }
        proof {
            if best_score != i32::MAX {
                if best_score as int == manhattan(n, *central_point) && n != *central_point {
                    assert(after[i as int] != *central_point);
                } else {
                    let w = choose|w: int|
                        0 <= w < before.len() && before[w] != *central_point && best_score
                            == manhattan(#[trigger] before[w], *central_point);
                    assert(after[w] == before[w]);
                }
            }
            assert forall|j: int|
                0 <= j < after.len() && after[j] != *central_point implies best_score
                <= manhattan(#[trigger] after[j], *central_point) by {
                if j < i {
                    assert(after[j] == before[j]);
                }
            }
        }
        i = i + 1;
    }
    proof {
        assert(crossings@.take(i as int) =~= crossings@);
    }
    best_score
}

/// Whether `index` is the first position of `line` that holds `point`.
pub open spec fn is_first_position(line: Seq<Coordinate>, point: Coordinate, index: int) -> bool {
    &&& 0 <= index < line.len()
    &&& line[index] == point
    &&& forall|j: int| 0 <= j < index ==> line[j] != point
}

/// How many steps along `line` lead to `coordinate`: its first position,
/// cut to 32 bits. A point that the line never visits gives an error.
pub fn get_steps_to_coordinate(line: &[Coordinate], coordinate: &Coordinate) -> (steps: Result<
    i32,
    &'static str,
>)
    ensures
        match steps {
            Ok(count) => exists|index: int|
                #[trigger] is_first_position(line@, *coordinate, index) && count == index as i32,
            Err(message) => !line@.contains(*coordinate) && message@ == "Not found on line"@,
        },
{
    let mut i: usize = 0;
    while i < line.len()
        invariant
            i <= line.len(),
            forall|j: int| 0 <= j < i ==> line@[j] != *coordinate,
        decreases line.len() - i,
    {
        if line[i].x == coordinate.x && line[i].y == coordinate.y {
            assert(is_first_position(line@, *coordinate, i as int));
            return Ok(
                #[verifier::truncate]
                (i as i32),
            );
        }
        i = i + 1;
    }
    Err("Not found on line")
}

/// A point of the unbounded plane that the grid is a part of.
pub struct Point {
    pub x: int,
    pub y: int,
}

/// The grid point `c` as a point of the plane.
pub open spec fn point_of(c: Coordinate) -> Point {
    Point { x: c.x as int, y: c.y as int }
}

/// Grid points as points of the plane.
pub open spec fn points_of(coordinates: Seq<Coordinate>) -> Seq<Point> {
    Seq::new(coordinates.len(), |i: int| point_of(coordinates[i]))
}

/// Whether `p` lies on the grid.
pub open spec fn on_grid(p: Point) -> bool {
    0 <= p.x <= usize::MAX && 0 <= p.y <= usize::MAX
}

/// The point `n` steps from `p` in the given direction.
pub open spec fn shifted(p: Point, direction: Direction, n: int) -> Point {
    match direction {
        Direction::Right => Point { x: p.x + n, y: p.y },
        Direction::Left => Point { x: p.x - n, y: p.y },
        Direction::Up => Point { x: p.x, y: p.y - n },
        Direction::Down => Point { x: p.x, y: p.y + n },
    }
}

/// The first `n` points that a leg in the given direction visits after it
/// leaves `from`.
pub open spec fn leg(from: Point, direction: Direction, n: nat) -> Seq<Point> {
    Seq::new(n, |i: int| shifted(from, direction, i + 1))
}

/// Every point that a wire visits: its start, then one point for each step
/// of each leg.
pub open spec fn trace(moves: Seq<Move>, start: Point) -> Seq<Point>
    decreases moves.len(),
{
    if moves.len() == 0 {
        seq![start]
    } else {
        let before = trace(moves.drop_last(), start);
        before + leg(before.last(), moves.last().direction, moves.last().steps as nat)
    }
}

/// The texts of the written legs.
pub open spec fn texts(line: Seq<&str>) -> Seq<Seq<char>> {
    Seq::new(line.len(), |k: int| line[k]@)
}

/// Whether every text writes a leg.
pub open spec fn all_parse(line: Seq<Seq<char>>) -> bool {
    forall|k: int| 0 <= k < line.len() ==> (#[trigger] spec_parse_move(line[k])) is Some
}

/// The legs that the texts write.
pub open spec fn moves_of(line: Seq<Seq<char>>) -> Seq<Move> {
    Seq::new(line.len(), |k: int| spec_parse_move(line[k]).unwrap())
}

/// The points of the wire that `line` writes from `start`, if every text
/// writes a leg and the wire stays on the grid.
pub open spec fn spec_path(line: Seq<Seq<char>>, start: Coordinate) -> Option<Seq<Point>> {
    let path = trace(moves_of(line), point_of(start));
    if all_parse(line) && (forall|i: int| 0 <= i < path.len() ==> on_grid(#[trigger] path[i])) {
        Some(path)
    } else {
        None
    }
}

/// The wire of the first `n` legs is the beginning of the whole wire.
pub proof fn lemma_trace_extends(moves: Seq<Move>, n: int, start: Point)
    requires
        0 <= n <= moves.len(),
    ensures
        trace(moves.take(n), start).is_prefix_of(trace(moves, start)),
    decreases moves.len(),
{
    if n == moves.len() {
        assert(moves.take(n) =~= moves);
    } else {
        assert(moves.drop_last().take(n) =~= moves.take(n));
        lemma_trace_extends(moves.drop_last(), n, start);
    }
}

/// Lays out the wire that `line` writes from `central_point` and returns
/// every point it visits, the start first. `None` if a text writes no leg or the
/// wire leaves the grid.
pub fn trace_wire(line: &[&str], central_point: &Coordinate) -> (coordinates: Option<
    Vec<Coordinate>,
>)
    ensures
        match coordinates {
            Some(visited) => spec_path(texts(line@), *central_point) == Some(points_of(visited@)),
            None => spec_path(texts(line@), *central_point) is None,
        },
{
    let ghost written = texts(line@);
    let ghost start = point_of(*central_point);
    let mut coordinates: Vec<Coordinate> = Vec::new();
    let mut current_pos: Coordinate = *central_point;
    coordinates.push(current_pos);
    let mut k: usize = 0;
    assert(moves_of(written).take(0) =~= Seq::<Move>::empty());
    assert(points_of(coordinates@) =~= seq![start]);
    while k < line.len()
        invariant
            k <= line.len(),
            written == texts(line@),
            start == point_of(*central_point),
            forall|j: int| 0 <= j < k ==> (#[trigger] spec_parse_move(written[j])) is Some,
            points_of(coordinates@) == trace(moves_of(written).take(k as int), start),
            coordinates@.len() >= 1,
            current_pos == coordinates@.last(),
        decreases line.len() - k,
    {
        let ghost done = moves_of(written).take(k as int);
        let ghost before = points_of(coordinates@);
        let step: &str = line[k];
        assert(step@ == written[k as int]);
        let m = match parse_move(step) {
            Some(m) => m,
            None => {
                return None;
            },
        };
        let ghost next = moves_of(written).take(k + 1);
        proof {
            assert(next.drop_last() =~= done);
            assert(next.last() == m);
        }
        let mut j: usize = 0;
        while j < m.steps
            invariant
                j <= m.steps,
                k < line.len(),
                written == texts(line@),
                start == point_of(*central_point),
                next == moves_of(written).take(k + 1),
                next.len() == k + 1,
                next.drop_last() == done,
                next.last() == m,
                before == trace(done, start),
                before.len() >= 1,
                points_of(coordinates@) == before + leg(before.last(), m.direction, j as nat),
                point_of(current_pos) == shifted(before.last(), m.direction, j as int),
                coordinates@.len() >= 1,
                current_pos == coordinates@.last(),
            decreases m.steps - j,
        {
            let ghost target = shifted(before.last(), m.direction, j + 1);
            let leaves: bool = match m.direction {
                Direction::Right => current_pos.x == usize::MAX,
                Direction::Left => current_pos.x == 0,
                Direction::Up => current_pos.y == 0,
                Direction::Down => current_pos.y == usize::MAX,
            };
            if leaves {
                proof {
                    assert(!on_grid(target));
                    let partial = trace(next, start);
                    let index = before.len() + j;
                    assert(partial == before + leg(before.last(), m.direction, m.steps as nat));
                    assert(partial[index] == target);
                    lemma_trace_extends(moves_of(written), k + 1, start);
                    let whole = trace(moves_of(written), start);
                    assert(whole[index] == partial[index]);
                }
                return None;
            }
            match m.direction {
                Direction::Right => {
                    current_pos.x = current_pos.x + 1;
                },
                Direction::Left => {
                    current_pos.x = current_pos.x - 1;
                },
                Direction::Up => {
                    current_pos.y = current_pos.y - 1;
                },
                Direction::Down => {
                    current_pos.y = current_pos.y + 1;
                },
            }
            let ghost prior = points_of(coordinates@);
            assert(prior.len() == before.len() + j) by {
                assert(leg(before.last(), m.direction, j as nat).len() == j);
            }
            assert(prior.len() == coordinates@.len());
            assert(point_of(current_pos) == target);
            coordinates.push(current_pos);
            j = j + 1;
            proof {
                let grown = before + leg(before.last(), m.direction, j as nat);
                assert(points_of(coordinates@).len() == grown.len());
                assert forall|i: int| 0 <= i < grown.len() implies points_of(coordinates@)[i]
                    == grown[i] by {
                    if i < prior.len() {
                        assert(points_of(coordinates@)[i] == prior[i]);
                    }
                }
                assert(points_of(coordinates@) =~= grown);
            }
        }
        k = k + 1;
    }
    proof {
        assert(moves_of(written).take(k as int) =~= moves_of(written));
        let path = trace(moves_of(written), start);
        assert forall|i: int| 0 <= i < path.len() implies on_grid(#[trigger] path[i]) by {
            assert(path[i] == point_of(coordinates@[i]));
        }
    }
    Some(coordinates)
}

/// Lays out the wire that `line` writes from `central_point` and returns
/// every point it visits, the start first.
pub fn get_coordinates_from_sequence(line: &[&str], central_point: &Coordinate) -> (coordinates:
    Vec<Coordinate>)
    requires
        spec_path(texts(line@), *central_point) is Some,
    ensures
        spec_path(texts(line@), *central_point) == Some(points_of(coordinates@)),
{
    trace_wire(line, central_point).unwrap()
}

} // verus!
