//! Scene construction: centers the map on the centroid of its vertices,
//! scales it to world units, and places one marker per vertex, one flat
//! strip per lane and one box per wall.
//!
//! Positions are exact: each coordinate is a numerator over the layout's
//! common denominator `100 * n` for `n` vertices, so that a world
//! coordinate `(x - mean_x) * 0.01` is `(n * x - sum_x) / (100 * n)`.

use vstd::prelude::*;
use crate::site_map::{Edge, MapError, SiteMap, SiteMapView, Vertex, edges_in_range, edges_within};

verus! {

/// Map units per world unit: the scene is drawn at 0.01 world units per map
/// unit.
pub const MAP_UNITS_PER_WORLD_UNIT: i128 = 100;

/// Height of the first lane, in thousandths of a world unit.
pub const FIRST_LANE_Z_MILLI: u128 = 10;

/// Each later lane sits this many thousandths of a world unit higher.
pub const LANE_Z_STEP_MILLI: u128 = 1;

/// A point of the scene: numerators over the layout's denominator.
#[derive(Clone, Copy, Debug, PartialEq, Eq, Structural)]
pub struct ScenePoint {
    pub x: i128,
    pub y: i128,
}

/// A lane or wall between two scene points, with what a renderer needs to
/// place it: the difference `end - start`, whose length and angle give the
/// primitive's length and yaw, and `start + end`, twice its center.
#[derive(Clone, Copy, Debug, PartialEq, Eq, Structural)]
pub struct Segment {
    pub start: ScenePoint,
    pub end: ScenePoint,
    pub delta: ScenePoint,
    pub mid_twice: ScenePoint,
}

/// A lane strip and its height above the ground, in thousandths of a world
/// unit.
#[derive(Clone, Copy, Debug, PartialEq, Eq, Structural)]
pub struct LanePlacement {
    pub segment: Segment,
    pub z_milli: u128,
}

/// Everything that the scene shows of a map. The centroid used for
/// centering is `(sum_x / vertex_count, sum_y / vertex_count)`; every
/// position is over `denominator`.
pub struct SceneLayout {
    pub vertex_count: usize,
    pub sum_x: i128,
    pub sum_y: i128,
    pub denominator: i128,
    pub markers: Vec<ScenePoint>,
    pub lanes: Vec<LanePlacement>,
    pub walls: Vec<Segment>,
}

/// Sum of the X coordinates.
pub open spec fn sum_x(vs: Seq<Vertex>) -> int
    decreases vs.len(),
{
    if vs.len() == 0 {
        0
    } else {
        sum_x(vs.drop_last()) + vs.last().x
    }
}

/// Sum of the Y coordinates.
pub open spec fn sum_y(vs: Seq<Vertex>) -> int
    decreases vs.len(),
{
    if vs.len() == 0 {
        0
    } else {
        sum_y(vs.drop_last()) + vs.last().y
    }
}

/// Where vertex `i` lands: `n * v - sum`, over the denominator `100 * n`.
pub open spec fn marker_at(vs: Seq<Vertex>, i: int) -> (int, int) {
    (vs.len() * vs[i].x - sum_x(vs), vs.len() * vs[i].y - sum_y(vs))
}

pub open spec fn point_of(p: ScenePoint) -> (int, int) {
    (p.x as int, p.y as int)
}

/// The segment of edge `e`: between the markers of its two vertices.
pub open spec fn segment_matches(s: Segment, vs: Seq<Vertex>, e: Edge) -> bool {
    let a = marker_at(vs, e.start as int);
    let b = marker_at(vs, e.end as int);
    &&& point_of(s.start) == a
    &&& point_of(s.end) == b
    &&& point_of(s.delta) == (b.0 - a.0, b.1 - a.1)
    &&& point_of(s.mid_twice) == (a.0 + b.0, a.1 + b.1)
}

/// A map can be laid out when it has a vertex and every edge is in range.
pub open spec fn layout_possible(m: SiteMapView) -> bool {
    &&& m.vertices.len() > 0
    &&& edges_within(m.lanes, m.vertices.len() as int)
    &&& edges_within(m.walls, m.vertices.len() as int)
}

/// What `layout` gives for a map that can be laid out.
pub open spec fn layout_matches(l: SceneLayout, m: SiteMapView) -> bool {
    let vs = m.vertices;
    let n = vs.len();
    &&& l.vertex_count == n
    &&& l.sum_x == sum_x(vs)
    &&& l.sum_y == sum_y(vs)
    &&& l.denominator == MAP_UNITS_PER_WORLD_UNIT * n
    &&& l.markers@.len() == n
    &&& forall|i: int| 0 <= i < n ==> point_of(#[trigger] l.markers@[i]) == marker_at(vs, i)
    &&& l.lanes@.len() == m.lanes.len()
    &&& forall|k: int|
        0 <= k < m.lanes.len() ==> segment_matches(#[trigger] l.lanes@[k].segment, vs, m.lanes[k])
            && l.lanes@[k].z_milli == FIRST_LANE_Z_MILLI + LANE_Z_STEP_MILLI * k
    &&& l.walls@.len() == m.walls.len()
    &&& forall|k: int| 0 <= k < m.walls.len() ==> segment_matches(#[trigger] l.walls@[k], vs, m.walls[k])
}

const COORD_BOUND: i128 = 0x8000_0000;

proof fn lemma_sum_bounds(vs: Seq<Vertex>)
    ensures
        -COORD_BOUND * vs.len() <= sum_x(vs) <= COORD_BOUND * vs.len(),
        -COORD_BOUND * vs.len() <= sum_y(vs) <= COORD_BOUND * vs.len(),
    decreases vs.len(),
{
    if vs.len() > 0 {
        lemma_sum_bounds(vs.drop_last());
    }
}

proof fn lemma_marker_bounds(vs: Seq<Vertex>, i: int)
    requires
        0 <= i < vs.len(),
        vs.len() <= usize::MAX,
    ensures
        -0x1_0000_0000_0000_0000_0000_0000 <= marker_at(vs, i).0 <= 0x1_0000_0000_0000_0000_0000_0000,
        -0x1_0000_0000_0000_0000_0000_0000 <= marker_at(vs, i).1 <= 0x1_0000_0000_0000_0000_0000_0000,
{
    lemma_sum_bounds(vs);
    let n = vs.len() as int;
    let x = vs[i].x as int;
    let y = vs[i].y as int;
    let sx = sum_x(vs);
    let sy = sum_y(vs);
    assert(-0x1_0000_0000_0000_0000_0000_0000 <= n * x - sx <= 0x1_0000_0000_0000_0000_0000_0000)
        by (nonlinear_arith)
        requires
            -0x8000_0000 <= x <= 0x8000_0000,
            -0x8000_0000 * n <= sx <= 0x8000_0000 * n,
            0 <= n <= 0x1_0000_0000_0000_0000,
    ;
    assert(-0x1_0000_0000_0000_0000_0000_0000 <= n * y - sy <= 0x1_0000_0000_0000_0000_0000_0000)
        by (nonlinear_arith)
        requires
            -0x8000_0000 <= y <= 0x8000_0000,
            -0x8000_0000 * n <= sy <= 0x8000_0000 * n,
            0 <= n <= 0x1_0000_0000_0000_0000,
    ;
}


/// The sums of the X and of the Y coordinates.
fn coordinate_sums(vs: &Vec<Vertex>) -> (r: (i128, i128))
    ensures
        r.0 == sum_x(vs@),
        r.1 == sum_y(vs@),
{
    let mut sx: i128 = 0;
    let mut sy: i128 = 0;
    let mut i: usize = 0;
    while i < vs.len()
        invariant
            i <= vs@.len(),
            sx == sum_x(vs@.subrange(0, i as int)),
            sy == sum_y(vs@.subrange(0, i as int)),
        decreases vs@.len() - i,
    {
        proof {
            let next = vs@.subrange(0, i + 1);
            assert(next.drop_last() =~= vs@.subrange(0, i as int));
            lemma_sum_bounds(vs@.subrange(0, i as int));
            assert(0x8000_0000 * i <= 0x8000_0000 * 0x1_0000_0000_0000_0000) by (nonlinear_arith)
                requires
                    i <= 0x1_0000_0000_0000_0000,
            ;
        }
        sx = sx + vs[i].x as i128;
        sy = sy + vs[i].y as i128;
        i = i + 1;
    }
    assert(vs@.subrange(0, vs@.len() as int) =~= vs@);
    (sx, sy)
}

/// The segment between two scene points.
fn make_segment(a: ScenePoint, b: ScenePoint) -> (r: Segment)
    requires
        -0x1_0000_0000_0000_0000_0000_0000 <= a.x <= 0x1_0000_0000_0000_0000_0000_0000,
        -0x1_0000_0000_0000_0000_0000_0000 <= a.y <= 0x1_0000_0000_0000_0000_0000_0000,
        -0x1_0000_0000_0000_0000_0000_0000 <= b.x <= 0x1_0000_0000_0000_0000_0000_0000,
        -0x1_0000_0000_0000_0000_0000_0000 <= b.y <= 0x1_0000_0000_0000_0000_0000_0000,
    ensures
        r.start == a,
        r.end == b,
        point_of(r.delta) == (b.x - a.x, b.y - a.y),
        point_of(r.mid_twice) == (a.x + b.x, a.y + b.y),
{
    Segment {
        start: a,
        end: b,
        delta: ScenePoint { x: b.x - a.x, y: b.y - a.y },
        mid_twice: ScenePoint { x: a.x + b.x, y: a.y + b.y },
    }
}

impl SiteMap {
    /// Lays the map out as a scene: every vertex centered on the centroid
    /// and scaled to world units, one strip per lane at heights rising from
    /// 0.01 by 0.001, one box per wall. Fails with `InvalidMapData`, and
    /// gives nothing, when the map has no vertex or an edge is out of range.
    pub fn layout(&self) -> (r: Result<SceneLayout, MapError>)
        ensures
            r is Ok <==> layout_possible(self@),
            r is Err ==> r == Err::<SceneLayout, MapError>(MapError::InvalidMapData),
            r matches Ok(l) ==> layout_matches(l, self@),
    {
        let vs = self.vertices();
        let lanes = self.lanes();
        let walls = self.walls();
        let n = vs.len();
        if n == 0 || !edges_in_range(lanes, n) || !edges_in_range(walls, n) {
            return Err(MapError::InvalidMapData);
        }
        let (sx, sy) = coordinate_sums(vs);
        let count = n as i128;
        let mut markers: Vec<ScenePoint> = Vec::new();
        let mut i: usize = 0;
        while i < n
            invariant
                n == vs@.len(),
                vs@ == self@.vertices,
                count == n,
                sx == sum_x(vs@),
                sy == sum_y(vs@),
                i <= n,
                markers@.len() == i,
                forall|j: int| 0 <= j < i ==> point_of(#[trigger] markers@[j]) == marker_at(vs@, j),
                forall|j: int|
                    0 <= j < i ==> -0x1_0000_0000_0000_0000_0000_0000 <= (#[trigger] markers@[j]).x
                        <= 0x1_0000_0000_0000_0000_0000_0000
                        && -0x1_0000_0000_0000_0000_0000_0000 <= markers@[j].y
                        <= 0x1_0000_0000_0000_0000_0000_0000,
            decreases n - i,
        {
            proof {
                lemma_marker_bounds(vs@, i as int);
                lemma_sum_bounds(vs@);
                assert(-0x8000_0000 * n <= count * vs@[i as int].x <= 0x8000_0000 * n) by (nonlinear_arith)
                    requires
                        -0x8000_0000 <= vs@[i as int].x <= 0x8000_0000,
                        count == n,
                        n >= 0,
                ;
                assert(-0x8000_0000 * n <= count * vs@[i as int].y <= 0x8000_0000 * n) by (nonlinear_arith)
                    requires
                        -0x8000_0000 <= vs@[i as int].y <= 0x8000_0000,
                        count == n,
                        n >= 0,
                ;
                assert(0x8000_0000 * n <= 0x8000_0000 * 0x1_0000_0000_0000_0000) by (nonlinear_arith)
                    requires
                        n <= 0x1_0000_0000_0000_0000,
                ;
            }
            let p = ScenePoint { x: count * vs[i].x as i128 - sx, y: count * vs[i].y as i128 - sy };
            markers.push(p);
            i = i + 1;
        }
        let mut lane_out: Vec<LanePlacement> = Vec::new();
        let mut k: usize = 0;
        while k < lanes.len()
            invariant
                n == vs@.len(),
                vs@ == self@.vertices,
                lanes@ == self@.lanes,
                edges_within(lanes@, n as int),
                markers@.len() == n,
                forall|j: int| 0 <= j < n ==> point_of(#[trigger] markers@[j]) == marker_at(vs@, j),
                forall|j: int|
                    0 <= j < n ==> -0x1_0000_0000_0000_0000_0000_0000 <= (#[trigger] markers@[j]).x
                        <= 0x1_0000_0000_0000_0000_0000_0000
                        && -0x1_0000_0000_0000_0000_0000_0000 <= markers@[j].y
                        <= 0x1_0000_0000_0000_0000_0000_0000,
                k <= lanes@.len(),
                lane_out@.len() == k,
                forall|j: int|
                    0 <= j < k ==> segment_matches(#[trigger] lane_out@[j].segment, vs@, lanes@[j])
                        && lane_out@[j].z_milli == FIRST_LANE_Z_MILLI + LANE_Z_STEP_MILLI * j,
            decreases lanes@.len() - k,
        {
            let e = lanes[k];
            let seg = make_segment(markers[e.start], markers[e.end]);
            lane_out.push(LanePlacement {
                segment: seg,
                z_milli: FIRST_LANE_Z_MILLI + LANE_Z_STEP_MILLI * (k as u128),
            });
            k = k + 1;
        }
        let mut wall_out: Vec<Segment> = Vec::new();
        let mut k: usize = 0;
        while k < walls.len()
            invariant
                n == vs@.len(),
                vs@ == self@.vertices,
                walls@ == self@.walls,
                edges_within(walls@, n as int),
                markers@.len() == n,
                forall|j: int| 0 <= j < n ==> point_of(#[trigger] markers@[j]) == marker_at(vs@, j),
                forall|j: int|
                    0 <= j < n ==> -0x1_0000_0000_0000_0000_0000_0000 <= (#[trigger] markers@[j]).x
                        <= 0x1_0000_0000_0000_0000_0000_0000
                        && -0x1_0000_0000_0000_0000_0000_0000 <= markers@[j].y
                        <= 0x1_0000_0000_0000_0000_0000_0000,
                k <= walls@.len(),
                wall_out@.len() == k,
                forall|j: int| 0 <= j < k ==> segment_matches(#[trigger] wall_out@[j], vs@, walls@[j]),
            decreases walls@.len() - k,
        {
            let e = walls[k];
            wall_out.push(make_segment(markers[e.start], markers[e.end]));
            k = k + 1;
        }
        Ok(SceneLayout {
            vertex_count: n,
            sum_x: sx,
            sum_y: sy,
            denominator: MAP_UNITS_PER_WORLD_UNIT * count,
            markers: markers,
            lanes: lane_out,
            walls: wall_out,
        })
    }
}


/// `b` is `a` with every vertex moved by `(dx, dy)`, edges unchanged.
pub open spec fn translated(a: SiteMapView, b: SiteMapView, dx: int, dy: int) -> bool {
    &&& a.vertices.len() == b.vertices.len()
    &&& a.lanes == b.lanes
    &&& a.walls == b.walls
    &&& forall|i: int|
        0 <= i < a.vertices.len() ==> (#[trigger] b.vertices[i]).x == a.vertices[i].x + dx
            && b.vertices[i].y == a.vertices[i].y + dy
}

proof fn lemma_sums_shift(a: Seq<Vertex>, b: Seq<Vertex>, dx: int, dy: int)
    requires
        a.len() == b.len(),
        forall|i: int|
            0 <= i < a.len() ==> (#[trigger] b[i]).x == a[i].x + dx && b[i].y == a[i].y + dy,
    ensures
        sum_x(b) == sum_x(a) + a.len() * dx,
        sum_y(b) == sum_y(a) + a.len() * dy,
    decreases a.len(),
{
    if a.len() > 0 {
        let a0 = a.drop_last();
        let b0 = b.drop_last();
        assert forall|i: int| 0 <= i < a0.len() implies (#[trigger] b0[i]).x == a0[i].x + dx
            && b0[i].y == a0[i].y + dy by {
            assert(b0[i] == b[i] && a0[i] == a[i]);
        }
        lemma_sums_shift(a0, b0, dx, dy);
        assert(b.last() == b[a.len() - 1]);
        assert(a.last() == a[a.len() - 1]);
        assert(b.last().x == a.last().x + dx);
        assert(b.last().y == a.last().y + dy);
        assert(sum_x(b) == sum_x(b0) + b.last().x);
        assert(sum_x(a) == sum_x(a0) + a.last().x);
        assert(sum_y(b) == sum_y(b0) + b.last().y);
        assert(sum_y(a) == sum_y(a0) + a.last().y);
        assert(a0.len() * dx + dx == a.len() * dx) by (nonlinear_arith)
            requires
                a0.len() + 1 == a.len(),
        ;
        assert(a0.len() * dy + dy == a.len() * dy) by (nonlinear_arith)
            requires
                a0.len() + 1 == a.len(),
        ;
        assert(sum_x(b0) == sum_x(a0) + a0.len() * dx);
        assert(sum_x(b) == sum_x(a) + a.len() * dx);
    } else {
        assert(a.len() * dx == 0 && a.len() * dy == 0) by (nonlinear_arith)
            requires
                a.len() == 0,
        ;
    }
}

/// The centroid is the mean of the vertex positions, and moving every
/// vertex by one vector moves the centroid with it: the laid-out scene of
/// the moved map is the same, marker for marker, lane for lane, wall for
/// wall.
pub proof fn lemma_layout_translation_invariant(
    a: SiteMapView,
    b: SiteMapView,
    dx: int,
    dy: int,
    la: SceneLayout,
    lb: SceneLayout,
)
    requires
        translated(a, b, dx, dy),
        layout_possible(a),
        layout_matches(la, a),
        layout_matches(lb, b),
    ensures
        lb.sum_x == la.sum_x + lb.vertex_count * dx,
        lb.sum_y == la.sum_y + lb.vertex_count * dy,
        la.denominator == lb.denominator,
        la.markers@ == lb.markers@,
        la.lanes@ == lb.lanes@,
        la.walls@ == lb.walls@,
{
    let n = a.vertices.len();
    lemma_sums_shift(a.vertices, b.vertices, dx, dy);
    assert forall|i: int| 0 <= i < n implies marker_at(a.vertices, i) == marker_at(b.vertices, i) by {
        let xa = a.vertices[i].x as int;
        let ya = a.vertices[i].y as int;
        assert(b.vertices[i].x == xa + dx);
        assert(n * (xa + dx) == n * xa + n * dx) by (nonlinear_arith);
        assert(n * (ya + dy) == n * ya + n * dy) by (nonlinear_arith);
    }
    assert(la.markers@ =~= lb.markers@) by {
        assert forall|i: int| 0 <= i < n implies la.markers@[i] == lb.markers@[i] by {
            assert(point_of(la.markers@[i]) == marker_at(a.vertices, i));
            assert(point_of(lb.markers@[i]) == marker_at(b.vertices, i));
        }
    }
    assert(la.lanes@ =~= lb.lanes@) by {
        assert forall|k: int| 0 <= k < la.lanes@.len() implies la.lanes@[k] == lb.lanes@[k] by {
            let e = a.lanes[k];
            assert(segment_matches(la.lanes@[k].segment, a.vertices, e));
            assert(segment_matches(lb.lanes@[k].segment, b.vertices, e));
            assert(marker_at(a.vertices, e.start as int) == marker_at(b.vertices, e.start as int));
            assert(marker_at(a.vertices, e.end as int) == marker_at(b.vertices, e.end as int));
        }
    }
    assert(la.walls@ =~= lb.walls@) by {
        assert forall|k: int| 0 <= k < la.walls@.len() implies la.walls@[k] == lb.walls@[k] by {
            let e = a.walls[k];
            assert(segment_matches(la.walls@[k], a.vertices, e));
            assert(segment_matches(lb.walls@[k], b.vertices, e));
            assert(marker_at(a.vertices, e.start as int) == marker_at(b.vertices, e.start as int));
            assert(marker_at(a.vertices, e.end as int) == marker_at(b.vertices, e.end as int));
        }
    }
}


/// The segment of edge `e` runs between the markers of its vertices, and
/// its difference is the map-space difference of those vertices times the
/// vertex count: over the denominator `100 * n`, it is that difference
/// scaled by 0.01.
pub open spec fn segment_joins(l: SceneLayout, m: SiteMapView, s: Segment, e: Edge) -> bool {
    let n = m.vertices.len() as int;
    let a = m.vertices[e.start as int];
    let b = m.vertices[e.end as int];
    &&& s.start == l.markers@[e.start as int]
    &&& s.end == l.markers@[e.end as int]
    &&& s.delta.x == s.end.x - s.start.x
    &&& s.delta.y == s.end.y - s.start.y
    &&& s.delta.x == n * (b.x - a.x)
    &&& s.delta.y == n * (b.y - a.y)
}

proof fn lemma_segment_joins(l: SceneLayout, m: SiteMapView, s: Segment, e: Edge)
    requires
        layout_matches(l, m),
        e.start < m.vertices.len(),
        e.end < m.vertices.len(),
        segment_matches(s, m.vertices, e),
    ensures
        segment_joins(l, m, s, e),
{
    let vs = m.vertices;
    let n = vs.len() as int;
    assert(point_of(l.markers@[e.start as int]) == marker_at(vs, e.start as int));
    assert(point_of(l.markers@[e.end as int]) == marker_at(vs, e.end as int));
    let xa = vs[e.start as int].x as int;
    let xb = vs[e.end as int].x as int;
    let ya = vs[e.start as int].y as int;
    let yb = vs[e.end as int].y as int;
    assert(n * xb - sum_x(vs) - (n * xa - sum_x(vs)) == n * (xb - xa)) by (nonlinear_arith);
    assert(n * yb - sum_y(vs) - (n * ya - sum_y(vs)) == n * (yb - ya)) by (nonlinear_arith);
}

/// Every lane and wall runs from the marker of its start vertex to the
/// marker of its end vertex, and carries `end - start`, which is the
/// map-space difference of its vertices scaled like every position: its
/// length is the distance between the two markers and its yaw the angle of
/// that difference.
pub proof fn lemma_edges_join_their_markers(m: SiteMapView, l: SceneLayout)
    requires
        layout_possible(m),
        layout_matches(l, m),
    ensures
        forall|k: int|
            0 <= k < l.lanes@.len() ==> segment_joins(l, m, (#[trigger] l.lanes@[k]).segment, m.lanes[k]),
        forall|k: int| 0 <= k < l.walls@.len() ==> segment_joins(l, m, #[trigger] l.walls@[k], m.walls[k]),
{
    assert forall|k: int| 0 <= k < l.lanes@.len() implies segment_joins(
        l,
        m,
        (#[trigger] l.lanes@[k]).segment,
        m.lanes[k],
    ) by {
        lemma_segment_joins(l, m, l.lanes@[k].segment, m.lanes[k]);
    }
    assert forall|k: int| 0 <= k < l.walls@.len() implies segment_joins(
        l,
        m,
        #[trigger] l.walls@[k],
        m.walls[k],
    ) by {
        lemma_segment_joins(l, m, l.walls@[k], m.walls[k]);
    }
}

/// Sum of the X numerators of some scene points.
pub open spec fn points_sum_x(ps: Seq<ScenePoint>) -> int
    decreases ps.len(),
{
    if ps.len() == 0 {
        0
    } else {
        points_sum_x(ps.drop_last()) + ps.last().x
    }
}

/// Sum of the Y numerators of some scene points.
pub open spec fn points_sum_y(ps: Seq<ScenePoint>) -> int
    decreases ps.len(),
{
    if ps.len() == 0 {
        0
    } else {
        points_sum_y(ps.drop_last()) + ps.last().y
    }
}

proof fn lemma_marker_prefix_sums(m: SiteMapView, l: SceneLayout, k: int)
    requires
        layout_matches(l, m),
        0 <= k <= m.vertices.len(),
    ensures
        points_sum_x(l.markers@.subrange(0, k)) == m.vertices.len() * sum_x(m.vertices.subrange(0, k))
            - k * sum_x(m.vertices),
        points_sum_y(l.markers@.subrange(0, k)) == m.vertices.len() * sum_y(m.vertices.subrange(0, k))
            - k * sum_y(m.vertices),
    decreases k,
{
    let n = m.vertices.len() as int;
    let sx = sum_x(m.vertices);
    let sy = sum_y(m.vertices);
    if k == 0 {
        assert(k * sx == 0 && k * sy == 0) by (nonlinear_arith)
            requires
                k == 0,
        ;
        assert(n * sum_x(m.vertices.subrange(0, 0)) == 0 && n * sum_y(m.vertices.subrange(0, 0)) == 0)
            by (nonlinear_arith)
            requires
                sum_x(m.vertices.subrange(0, 0)) == 0,
                sum_y(m.vertices.subrange(0, 0)) == 0,
        ;
    } else {
        lemma_marker_prefix_sums(m, l, k - 1);
        assert(l.markers@.subrange(0, k).drop_last() =~= l.markers@.subrange(0, k - 1));
        assert(m.vertices.subrange(0, k).drop_last() =~= m.vertices.subrange(0, k - 1));
        assert(point_of(l.markers@[k - 1]) == marker_at(m.vertices, k - 1));
        let px = sum_x(m.vertices.subrange(0, k - 1));
        let py = sum_y(m.vertices.subrange(0, k - 1));
        let x = m.vertices[k - 1].x as int;
        let y = m.vertices[k - 1].y as int;
        assert(n * px - (k - 1) * sx + (n * x - sx) == n * (px + x) - k * sx) by (nonlinear_arith);
        assert(n * py - (k - 1) * sy + (n * y - sy) == n * (py + y) - k * sy) by (nonlinear_arith);
    }
}

/// The scene is centered: the centroid used is the mean of the vertices,
/// so the marker positions add up to zero on each axis.
pub proof fn lemma_markers_centered(m: SiteMapView, l: SceneLayout)
    requires
        layout_matches(l, m),
    ensures
        points_sum_x(l.markers@) == 0,
        points_sum_y(l.markers@) == 0,
{
    let n = m.vertices.len() as int;
    lemma_marker_prefix_sums(m, l, n);
    assert(l.markers@.subrange(0, n) =~= l.markers@);
    assert(m.vertices.subrange(0, n) =~= m.vertices);
    assert(n * sum_x(m.vertices) - n * sum_x(m.vertices) == 0);
}

} // verus!
