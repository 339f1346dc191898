use vstd::prelude::*;

verus! {

/// Largest magnitude of a vertex coordinate that the rasterizer accepts, so
/// that every edge function fits in an `i32`.
pub const COORD_LIMIT: i32 = 16383;

/// Whether `v` fits in an `i32`.
pub open spec fn fits_i32(v: int) -> bool {
    i32::MIN <= v <= i32::MAX
}

/// The smallest of three values.
pub open spec fn min3(a: i32, b: i32, c: i32) -> i32 {
    if a <= b && a <= c {
        a
    } else if b <= c {
        b
    } else {
        c
    }
}

/// The largest of three values.
pub open spec fn max3(a: i32, b: i32, c: i32) -> i32 {
    if a >= b && a >= c {
        a
    } else if b >= c {
        b
    } else {
        c
    }
}

/// The cross product of `e` with the offset of `t` from `s`.
pub open spec fn cross(e: Vertex, s: Vertex, t: Vertex) -> int {
    e.x * (t.y - s.y) - e.y * (t.x - s.x)
}

/// The edge function of the directed edge from `a` to `b` at point `p`:
/// non-negative when `p` lies on the inner side of the edge.
pub open spec fn edge(a: Vertex, b: Vertex, p: (i32, i32)) -> int {
    (b.x - a.x) * (p.1 - a.y) - (b.y - a.y) * (p.0 - a.x)
}

/// Strict lexicographic order on points: by `x`, then by `y`.
pub open spec fn lex_lt(p: (i32, i32), q: (i32, i32)) -> bool {
    p.0 < q.0 || (p.0 == q.0 && p.1 < q.1)
}

/// An RGBA color.
#[derive(Debug, Clone, Copy, PartialEq, Eq, Structural)]
pub struct Color {
    pub r: u8,
    pub g: u8,
    pub b: u8,
    pub a: u8,
}

/// A point of the integer plane.
#[derive(Debug, Clone, Copy, PartialEq, Eq, Structural)]
pub struct Vertex {
    pub x: i32,
    pub y: i32,
}

impl Vertex {
    /// The offset from `a` to `b`, that is `b - a`.
    pub fn sub(a: Vertex, b: Vertex) -> (r: Vertex)
        requires
            fits_i32(b.x - a.x),
            fits_i32(b.y - a.y),
        ensures
            r.x == b.x - a.x,
            r.y == b.y - a.y,
    {
        Vertex { x: b.x - a.x, y: b.y - a.y }
    }

    /// The cross product of `self` with the offset from `start_vertex` to `target`.
    pub fn cross_product(&self, start_vertex: Vertex, target: Vertex) -> (r: i32)
        requires
            fits_i32(target.x - start_vertex.x),
            fits_i32(target.y - start_vertex.y),
            fits_i32(self.x * (target.y - start_vertex.y)),
            fits_i32(self.y * (target.x - start_vertex.x)),
            fits_i32(cross(*self, start_vertex, target)),
        ensures
            r == cross(*self, start_vertex, target),
    {
        let target = Vertex::sub(start_vertex, target);
        self.x * target.y - self.y * target.x
    }
}

/// The axis-aligned box spanned by a triangle's vertices.
#[derive(Debug, Clone, Copy, PartialEq, Eq, Structural)]
pub struct BoundingBox {
    pub min_x: i32,
    pub min_y: i32,
    pub max_x: i32,
    pub max_y: i32,
}

/// A triangle with an optional fill color.
pub struct Triangle {
    pub v0: Vertex,
    pub v1: Vertex,
    pub v2: Vertex,
    pub color: Option<Color>,
}

/// The smaller of two values.
fn min2(a: i32, b: i32) -> (r: i32)
    ensures
        r == if a <= b { a } else { b },
{
    if a <= b {
        a
    } else {
        b
    }
}

/// The larger of two values.
fn max2(a: i32, b: i32) -> (r: i32)
    ensures
        r == if a >= b { a } else { b },
{
    if a >= b {
        a
    } else {
        b
    }
}

/// Bounds on the products of two edge-function factors.
proof fn lemma_product_bound(a: int, b: int)
    requires
        -32766 <= a <= 32766,
        -32766 <= b <= 32766,
    ensures
        -1073610756 <= a * b <= 1073610756,
{
    assert(-1073610756 <= a * b <= 1073610756) by (nonlinear_arith)
        requires
            -32766 <= a <= 32766,
            -32766 <= b <= 32766,
    ;
}

impl Triangle {
    /// A triangle with vertices `v1`, `v2`, `v3` and the given color.
    pub fn new(v1: Vertex, v2: Vertex, v3: Vertex, color: Option<Color>) -> (r: Triangle)
        ensures
            r.v0 == v1,
            r.v1 == v2,
            r.v2 == v3,
            r.color == color,
    {
        Triangle { v0: v1, v1: v2, v2: v3, color }
    }

    /// Every coordinate lies within `COORD_LIMIT` of the origin.
    pub open spec fn in_range(&self) -> bool {
        &&& -COORD_LIMIT <= self.v0.x <= COORD_LIMIT
        &&& -COORD_LIMIT <= self.v0.y <= COORD_LIMIT
        &&& -COORD_LIMIT <= self.v1.x <= COORD_LIMIT
        &&& -COORD_LIMIT <= self.v1.y <= COORD_LIMIT
        &&& -COORD_LIMIT <= self.v2.x <= COORD_LIMIT
        &&& -COORD_LIMIT <= self.v2.y <= COORD_LIMIT
    }

    /// The bounding box of the vertices.
    pub open spec fn bbox(&self) -> BoundingBox {
        BoundingBox {
            min_x: min3(self.v0.x, self.v1.x, self.v2.x),
            min_y: min3(self.v0.y, self.v1.y, self.v2.y),
            max_x: max3(self.v0.x, self.v1.x, self.v2.x),
            max_y: max3(self.v0.y, self.v1.y, self.v2.y),
        }
    }

    /// `p` lies in the bounding box, the maximum edges excluded.
    pub open spec fn in_box(&self, p: (i32, i32)) -> bool {
        &&& self.bbox().min_x <= p.0 < self.bbox().max_x
        &&& self.bbox().min_y <= p.1 < self.bbox().max_y
    }

    /// `p` lies on the inner side of all three edges.
    pub open spec fn covers(&self, p: (i32, i32)) -> bool {
        &&& edge(self.v0, self.v1, p) >= 0
        &&& edge(self.v1, self.v2, p) >= 0
        &&& edge(self.v2, self.v0, p) >= 0
    }

    /// The bounding box of the vertices.
    pub fn get_bounding_box(&self) -> (r: BoundingBox)
        ensures
            r == self.bbox(),
    {
        BoundingBox {
            min_x: min2(self.v0.x, min2(self.v1.x, self.v2.x)),
            min_y: min2(self.v0.y, min2(self.v1.y, self.v2.y)),
            max_x: max2(self.v0.x, max2(self.v1.x, self.v2.x)),
            max_y: max2(self.v0.y, max2(self.v1.y, self.v2.y)),
        }
    }

    /// Whether the point `target` of the bounding box is covered.
    fn covers_point(&self, target: Vertex) -> (r: bool)
        requires
            self.in_range(),
            self.in_box((target.x, target.y)),
        ensures
            r == self.covers((target.x, target.y)),
    {
        let p = (target.x, target.y);
        proof {
            let (a, b, c) = (self.v0, self.v1, self.v2);
            lemma_product_bound(b.x - a.x, p.1 - a.y);
            lemma_product_bound(b.y - a.y, p.0 - a.x);
            lemma_product_bound(c.x - b.x, p.1 - b.y);
            lemma_product_bound(c.y - b.y, p.0 - b.x);
            lemma_product_bound(a.x - c.x, p.1 - c.y);
            lemma_product_bound(a.y - c.y, p.0 - c.x);
        }
        let c0 = Vertex::sub(self.v0, self.v1).cross_product(self.v0, target);
        let c1 = Vertex::sub(self.v1, self.v2).cross_product(self.v1, target);
        let c2 = Vertex::sub(self.v2, self.v0).cross_product(self.v2, target);
        c0 >= 0 && c1 >= 0 && c2 >= 0
    }

    /// The points of the bounding box (maximum edges excluded) that lie on
    /// the inner side of all three edges, in increasing order of `x`, then `y`.
    pub fn buffer(&self) -> (r: Vec<(i32, i32)>)
        requires
            self.in_range(),
        ensures
            forall|i: int|
                0 <= i < r@.len() ==> self.in_box(#[trigger] r@[i]) && self.covers(r@[i]),
            forall|p: (i32, i32)| self.in_box(p) && #[trigger] self.covers(p) ==> r@.contains(p),
            forall|i: int, j: int| 0 <= i < j < r@.len() ==> lex_lt(r@[i], r@[j]),
    {
        let bb = self.get_bounding_box();
        let mut buffer: Vec<(i32, i32)> = Vec::new();
        let mut x: i32 = bb.min_x;
        while x < bb.max_x
            invariant
                self.in_range(),
                bb == self.bbox(),
                bb.min_x <= x,
                x <= bb.max_x || x == bb.min_x,
                forall|i: int|
                    0 <= i < buffer@.len() ==> self.in_box(#[trigger] buffer@[i]) && self.covers(
                        buffer@[i],
                    ) && buffer@[i].0 < x,
                forall|p: (i32, i32)|
                    self.in_box(p) && #[trigger] self.covers(p) && p.0 < x ==> buffer@.contains(p),
                forall|i: int, j: int|
                    0 <= i < j < buffer@.len() ==> lex_lt(buffer@[i], buffer@[j]),
            decreases bb.max_x - x,
        {
            let mut y: i32 = bb.min_y;
            while y < bb.max_y
                invariant
                    self.in_range(),
                    bb == self.bbox(),
                    bb.min_x <= x < bb.max_x,
                    bb.min_y <= y,
                    y <= bb.max_y || y == bb.min_y,
                    forall|i: int|
                        0 <= i < buffer@.len() ==> self.in_box(#[trigger] buffer@[i])
                            && self.covers(buffer@[i]) && lex_lt(buffer@[i], (x, y)),
                    forall|p: (i32, i32)|
                        self.in_box(p) && #[trigger] self.covers(p) && lex_lt(p, (x, y))
                            ==> buffer@.contains(p),
                    forall|i: int, j: int|
                        0 <= i < j < buffer@.len() ==> lex_lt(buffer@[i], buffer@[j]),
                decreases bb.max_y - y,
            {
                let target = Vertex { x, y };
                if self.covers_point(target) {
                    let ghost before = buffer@;
                    buffer.push((x, y));
                    proof {
                        assert forall|p: (i32, i32)|
                            self.in_box(p) && #[trigger] self.covers(p) && lex_lt(p, (x, (y + 1) as i32))
                                implies buffer@.contains(p) by {
                            if p == (x, y) {
                                assert(buffer@[before.len() as int] == p);
                            } else {
                                assert(before.contains(p));
                                let i = choose|i: int| 0 <= i < before.len() && before[i] == p;
                                assert(buffer@[i] == p);
                            }
                        }
                    }
                }
                y = y + 1;
            }
            x = x + 1;
        }
        buffer
    }
}

} // verus!
