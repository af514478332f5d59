//! The site map: vertices, lanes and walls, loaded from a parsed document
//! all at once or not at all.

use vstd::prelude::*;

verus! {

/// A map vertex: a position in whole map units and an optional name.
#[derive(Debug)]
pub struct Vertex {
    pub x: i32,
    pub y: i32,
    pub name: Option<String>,
}

/// A lane or a wall: the indices of its two end vertices.
#[derive(Clone, Copy, Debug, PartialEq, Eq, Structural)]
pub struct Edge {
    pub start: usize,
    pub end: usize,
}

/// One level of a parsed map document, in the document's convention
/// (map Y grows downward).
pub struct Level {
    pub name: String,
    pub vertices: Vec<Vertex>,
    pub lanes: Vec<Edge>,
    pub walls: Vec<Edge>,
}

/// A parsed map document: a name and its levels in order.
pub struct MapDocument {
    pub name: String,
    pub levels: Vec<Level>,
}

/// Why a map could not be loaded or laid out.
#[derive(Clone, Copy, Debug, PartialEq, Eq, Structural)]
pub enum MapError {
    InvalidMapData,
}

/// The vertices of all levels, one level after another, as the document
/// gives them.
pub open spec fn document_vertices(levels: Seq<Level>) -> Seq<Vertex>
    decreases levels.len(),
{
    if levels.len() == 0 {
        Seq::empty()
    } else {
        document_vertices(levels.drop_last()) + levels.last().vertices@
    }
}

/// The lanes of all levels, one level after another. Their indices are kept
/// as the document gives them, not shifted per level.
pub open spec fn document_lanes(levels: Seq<Level>) -> Seq<Edge>
    decreases levels.len(),
{
    if levels.len() == 0 {
        Seq::empty()
    } else {
        document_lanes(levels.drop_last()) + levels.last().lanes@
    }
}

/// The walls of all levels, one level after another, indices unshifted.
pub open spec fn document_walls(levels: Seq<Level>) -> Seq<Edge>
    decreases levels.len(),
{
    if levels.len() == 0 {
        Seq::empty()
    } else {
        document_walls(levels.drop_last()) + levels.last().walls@
    }
}

/// A vertex moved from the document's convention to the map's: Y negated.
pub open spec fn flipped(v: Vertex) -> Vertex {
    Vertex { x: v.x, y: (-v.y) as i32, name: v.name }
}

/// Every edge names two vertices among the first `n`.
pub open spec fn edges_within(edges: Seq<Edge>, n: int) -> bool {
    forall|k: int| 0 <= k < edges.len() ==> edges[k].start < n && edges[k].end < n
}

/// A document loads when each negated Y coordinate fits and every lane and
/// wall refers to an existing vertex.
pub open spec fn document_valid(doc: MapDocument) -> bool {
    let vs = document_vertices(doc.levels@);
    &&& forall|k: int| 0 <= k < vs.len() ==> vs[k].y != i32::MIN
    &&& edges_within(document_lanes(doc.levels@), vs.len() as int)
    &&& edges_within(document_walls(doc.levels@), vs.len() as int)
}

/// Whether every edge in `edges` names one of the first `n` vertices.
pub fn edges_in_range(edges: &Vec<Edge>, n: usize) -> (r: bool)
    ensures
        r == edges_within(edges@, n as int),
{
    let mut k: usize = 0;
    while k < edges.len()
        invariant
            k <= edges@.len(),
            forall|j: int| 0 <= j < k ==> edges@[j].start < n && edges@[j].end < n,
        decreases edges@.len() - k,
    {
        if edges[k].start >= n || edges[k].end >= n {
            return false;
        }
        k = k + 1;
    }
    true
}

/// The map as plain values.
pub struct SiteMapView {
    pub name: Seq<char>,
    pub source: Seq<char>,
    pub vertices: Seq<Vertex>,
    pub lanes: Seq<Edge>,
    pub walls: Seq<Edge>,
}

/// A site map, read-only between loads. Vertices are in the map's
/// convention (Y grows upward).
pub struct SiteMap {
    name: String,
    source: String,
    vertices: Vec<Vertex>,
    lanes: Vec<Edge>,
    walls: Vec<Edge>,
}

impl View for SiteMap {
    type V = SiteMapView;

    closed spec fn view(&self) -> SiteMapView {
        SiteMapView {
            name: self.name@,
            source: self.source@,
            vertices: self.vertices@,
            lanes: self.lanes@,
            walls: self.walls@,
        }
    }
}


proof fn lemma_document_vertices_step(levels: Seq<Level>, i: int)
    requires
        0 <= i < levels.len(),
    ensures
        document_vertices(levels.subrange(0, i + 1))
            == document_vertices(levels.subrange(0, i)) + levels[i].vertices@,
{
    assert(levels.subrange(0, i + 1).drop_last() =~= levels.subrange(0, i));
}

proof fn lemma_document_lanes_step(levels: Seq<Level>, i: int)
    requires
        0 <= i < levels.len(),
    ensures
        document_lanes(levels.subrange(0, i + 1)) == document_lanes(levels.subrange(0, i))
            + levels[i].lanes@,
        document_walls(levels.subrange(0, i + 1)) == document_walls(levels.subrange(0, i))
            + levels[i].walls@,
{
    assert(levels.subrange(0, i + 1).drop_last() =~= levels.subrange(0, i));
}

fn copy_name(name: &Option<String>) -> (r: Option<String>)
    ensures
        r == *name,
{
    match name {
        Some(s) => Some(s.clone()),
        None => None,
    }
}

/// The vertices of all levels with Y negated, or `None` when a negated Y
/// coordinate does not fit.
fn flip_vertices(levels: &Vec<Level>) -> (r: Option<Vec<Vertex>>)
    ensures
        ({
            let vs = document_vertices(levels@);
            match r {
                Some(out) => {
                    &&& forall|k: int| 0 <= k < vs.len() ==> vs[k].y != i32::MIN
                    &&& out@.len() == vs.len()
                    &&& forall|k: int| 0 <= k < vs.len() ==> out@[k] == flipped(vs[k])
                },
                None => exists|k: int| 0 <= k < vs.len() && vs[k].y == i32::MIN,
            }
        }),
{
    let mut out: Vec<Vertex> = Vec::new();
    let mut li: usize = 0;
    while li < levels.len()
        invariant
            li <= levels@.len(),
            ({
                let vs = document_vertices(levels@.subrange(0, li as int));
                &&& forall|k: int| 0 <= k < vs.len() ==> vs[k].y != i32::MIN
                &&& out@.len() == vs.len()
                &&& forall|k: int| 0 <= k < vs.len() ==> out@[k] == flipped(vs[k])
            }),
        decreases levels@.len() - li,
    {
        let level = &levels[li];
        let ghost before = document_vertices(levels@.subrange(0, li as int));
        proof {
            lemma_document_vertices_step(levels@, li as int);
        }
        let mut j: usize = 0;
        while j < level.vertices.len()
            invariant
                li < levels@.len(),
                *level == levels@[li as int],
                j <= level.vertices@.len(),
                before == document_vertices(levels@.subrange(0, li as int)),
                document_vertices(levels@.subrange(0, li + 1)) == before + level.vertices@,
                forall|k: int| 0 <= k < before.len() ==> before[k].y != i32::MIN,
                forall|t: int| 0 <= t < j ==> level.vertices@[t].y != i32::MIN,
                out@.len() == before.len() + j,
                forall|k: int| 0 <= k < before.len() ==> out@[k] == flipped(before[k]),
                forall|t: int| 0 <= t < j ==> out@[before.len() + t] == flipped(level.vertices@[t]),
            decreases level.vertices@.len() - j,
        {
            let v = &level.vertices[j];
            if v.y == i32::MIN {
                proof {
                    assert(levels@.subrange(0, levels@.len() as int) =~= levels@);
                    lemma_document_vertices_prefix(levels@, li + 1);
                    let vs = document_vertices(levels@);
                    let upto = document_vertices(levels@.subrange(0, li + 1));
                    assert(upto[before.len() + j] == level.vertices@[j as int]);
                    assert(vs[before.len() + j] == level.vertices@[j as int]);
                }
                return None;
            }
            out.push(Vertex { x: v.x, y: -v.y, name: copy_name(&v.name) });
            j = j + 1;
        }
        proof {
            let vs = document_vertices(levels@.subrange(0, li + 1));
            assert forall|k: int| 0 <= k < vs.len() implies out@[k] == flipped(vs[k])
                && vs[k].y != i32::MIN by {
                if k >= before.len() {
                    assert(out@[before.len() + (k - before.len())] == flipped(
                        level.vertices@[k - before.len()],
                    ));
                }
            }
        }
        li = li + 1;
    }
    assert(levels@.subrange(0, levels@.len() as int) =~= levels@);
    Some(out)
}

/// A prefix of the levels gives a prefix of the vertices.
proof fn lemma_document_vertices_prefix(levels: Seq<Level>, i: int)
    requires
        0 <= i <= levels.len(),
    ensures
        document_vertices(levels.subrange(0, i)).len() <= document_vertices(levels).len(),
        forall|k: int|
            0 <= k < document_vertices(levels.subrange(0, i)).len() ==> document_vertices(levels)[k]
                == #[trigger] document_vertices(levels.subrange(0, i))[k],
    decreases levels.len() - i,
{
    if i < levels.len() {
        lemma_document_vertices_prefix(levels, i + 1);
        lemma_document_vertices_step(levels, i);
        let shorter = document_vertices(levels.subrange(0, i));
        let longer = document_vertices(levels.subrange(0, i + 1));
        assert forall|k: int| 0 <= k < shorter.len() implies document_vertices(levels)[k]
            == #[trigger] shorter[k] by {
            assert(longer[k] == shorter[k]);
        }
    } else {
        assert(levels.subrange(0, i) =~= levels);
    }
}


/// The lanes (or, when `walls` holds, the walls) of all levels in order.
fn gather_edges(levels: &Vec<Level>, walls: bool) -> (r: Vec<Edge>)
    ensures
        r@ == (if walls { document_walls(levels@) } else { document_lanes(levels@) }),
{
    let mut out: Vec<Edge> = Vec::new();
    let mut li: usize = 0;
    while li < levels.len()
        invariant
            li <= levels@.len(),
            out@ == (if walls {
                document_walls(levels@.subrange(0, li as int))
            } else {
                document_lanes(levels@.subrange(0, li as int))
            }),
        decreases levels@.len() - li,
    {
        let edges = if walls { &levels[li].walls } else { &levels[li].lanes };
        let ghost before = out@;
        proof {
            lemma_document_lanes_step(levels@, li as int);
        }
        let mut j: usize = 0;
        while j < edges.len()
            invariant
                j <= edges@.len(),
                out@ == before + edges@.subrange(0, j as int),
            decreases edges@.len() - j,
        {
            out.push(edges[j]);
            proof {
                assert(out@ =~= before + edges@.subrange(0, j + 1));
            }
            j = j + 1;
        }
        assert(edges@.subrange(0, edges@.len() as int) =~= edges@);
        li = li + 1;
    }
    assert(levels@.subrange(0, levels@.len() as int) =~= levels@);
    out
}

impl SiteMap {
    /// An empty map.
    pub fn new() -> (r: Self)
        ensures
            r@.name.len() == 0,
            r@.source.len() == 0,
            r@.vertices.len() == 0,
            r@.lanes.len() == 0,
            r@.walls.len() == 0,
    {
        SiteMap {
            name: String::new(),
            source: String::new(),
            vertices: Vec::new(),
            lanes: Vec::new(),
            walls: Vec::new(),
        }
    }

    pub fn name(&self) -> (r: &String)
        ensures
            r@ == self@.name,
    {
        &self.name
    }

    /// Where the map was loaded from.
    pub fn source(&self) -> (r: &String)
        ensures
            r@ == self@.source,
    {
        &self.source
    }

    pub fn vertices(&self) -> (r: &Vec<Vertex>)
        ensures
            r@ == self@.vertices,
    {
        &self.vertices
    }

    pub fn lanes(&self) -> (r: &Vec<Edge>)
        ensures
            r@ == self@.lanes,
    {
        &self.lanes
    }

    pub fn walls(&self) -> (r: &Vec<Edge>)
        ensures
            r@ == self@.walls,
    {
        &self.walls
    }

    /// Replaces the whole map with the document's levels, flattened in order
    /// and with Y negated, or fails with `InvalidMapData` and leaves the map
    /// exactly as it was. Lane and wall indices are taken as given, against
    /// the vertices of all levels together.
    pub fn load(&mut self, source: String, doc: &MapDocument) -> (r: Result<(), MapError>)
        ensures
            r is Ok <==> document_valid(*doc),
            r is Err ==> r == Err::<(), MapError>(MapError::InvalidMapData) && *final(self) == *old(self),
            ({
                let n = document_vertices(doc.levels@).len() as int;
                !edges_within(document_lanes(doc.levels@), n)
                    || !edges_within(document_walls(doc.levels@), n)
            }) ==> r == Err::<(), MapError>(MapError::InvalidMapData) && *final(self) == *old(self),
            r is Ok ==> {
                let vs = document_vertices(doc.levels@);
                &&& final(self)@.name == doc.name@
                &&& final(self)@.source == source@
                &&& final(self)@.vertices.len() == vs.len()
                &&& forall|k: int| 0 <= k < vs.len() ==> final(self)@.vertices[k] == flipped(vs[k])
                &&& final(self)@.lanes == document_lanes(doc.levels@)
                &&& final(self)@.walls == document_walls(doc.levels@)
            },
    {
        let vertices = match flip_vertices(&doc.levels) {
            Some(vs) => vs,
            None => {
                return Err(MapError::InvalidMapData);
            },
        };
        let lanes = gather_edges(&doc.levels, false);
        let walls = gather_edges(&doc.levels, true);
        let n = vertices.len();
        if !edges_in_range(&lanes, n) || !edges_in_range(&walls, n) {
            return Err(MapError::InvalidMapData);
        }
        self.name = doc.name.clone();
        self.source = source;
        self.vertices = vertices;
        self.lanes = lanes;
        self.walls = walls;
        Ok(())
    }
}

} // verus!
