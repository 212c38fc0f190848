use vstd::prelude::*;

verus! {

/// Largest magnitude a quad coordinate may take, in thousandths of a
/// normalized-device-coordinate unit. `1000` is the edge of the target;
/// the slack beyond it leaves room for offset quads that hang off screen.
pub const COORD_LIMIT: i32 = 1_000_000;

/// One unit (the full half-extent of the target) in coordinate thousandths.
pub const COORD_ONE: i32 = 1000;

/// Texture-coordinate value for the far edge of a texture, in thousandths.
pub const TEX_ONE: i32 = 1000;

/// A coordinate that stays well inside `i32` under one more shift.
pub open spec fn coord_in_range(c: int) -> bool {
    -COORD_LIMIT <= c <= COORD_LIMIT
}

/// One corner of a textured quad. `x`, `y`, `z` are the position in
/// thousandths of a normalized-device-coordinate unit; `u`, `v` are the
/// texture coordinates in thousandths of the texture extent.
#[derive(Clone, Copy, PartialEq, Eq, Structural, Debug)]
pub struct Vertex {
    pub x: i32,
    pub y: i32,
    pub z: i32,
    pub u: i32,
    pub v: i32,
}

/// `v` shifted by `dx` along the x axis.
pub open spec fn vertex_shift_x(v: Vertex, dx: int) -> Vertex {
    Vertex { x: (v.x + dx) as i32, ..v }
}

/// `v` shifted by `dy` along the y axis.
pub open spec fn vertex_shift_y(v: Vertex, dy: int) -> Vertex {
    Vertex { y: (v.y + dy) as i32, ..v }
}

impl Vertex {
    /// All coordinates of this vertex are in range.
    pub open spec fn wf(self) -> bool {
        &&& coord_in_range(self.x as int)
        &&& coord_in_range(self.y as int)
        &&& coord_in_range(self.z as int)
    }

    /// Shifts the vertex along the x axis and hands back a copy of the
    /// shifted vertex.
    pub fn move_x_position(&mut self, x: i32) -> (r: Vertex)
        requires
            coord_in_range(old(self).x + x),
        ensures
            *final(self) == vertex_shift_x(*old(self), x as int),
            r == *final(self),
    {
        self.x = self.x + x;
        *self
    }

    /// Shifts the vertex along the y axis and hands back a copy of the
    /// shifted vertex.
    pub fn move_y_position(&mut self, y: i32) -> (r: Vertex)
        requires
            coord_in_range(old(self).y + y),
        ensures
            *final(self) == vertex_shift_y(*old(self), y as int),
            r == *final(self),
    {
        self.y = self.y + y;
        *self
    }
}

/// The four corners of an axis-aligned quad of half-extent `scale`
/// centered on `(x_offset, y_offset)`, in counter-clockwise order
/// starting at the bottom-left, with the texture mapped upright.
pub open spec fn quad_vertices(scale: int, x_offset: int, y_offset: int) -> Seq<Vertex> {
    seq![
        Vertex { x: (x_offset - scale) as i32, y: (y_offset - scale) as i32, z: 0, u: 0, v: TEX_ONE },
        Vertex { x: (x_offset + scale) as i32, y: (y_offset - scale) as i32, z: 0, u: TEX_ONE, v: TEX_ONE },
        Vertex { x: (x_offset + scale) as i32, y: (y_offset + scale) as i32, z: 0, u: TEX_ONE, v: 0 },
        Vertex { x: (x_offset - scale) as i32, y: (y_offset + scale) as i32, z: 0, u: 0, v: 0 },
    ]
}

/// The universal textured rectangle every drawable is built from:
/// four corners, two triangles.
#[derive(Debug)]
pub struct Plane {
    pub vertices: Vec<Vertex>,
}

impl Plane {
    /// A well-formed plane: exactly four in-range corners forming an
    /// axis-aligned rectangle of positive extent, bottom-left first,
    /// counter-clockwise.
    pub open spec fn wf(self) -> bool {
        &&& self.vertices@.len() == 4
        &&& forall|i: int| 0 <= i < 4 ==> (#[trigger] self.vertices@[i]).wf()
        &&& self.vertices@[0].x == self.vertices@[3].x
        &&& self.vertices@[1].x == self.vertices@[2].x
        &&& self.vertices@[0].y == self.vertices@[1].y
        &&& self.vertices@[2].y == self.vertices@[3].y
        &&& self.vertices@[0].x < self.vertices@[1].x
        &&& self.vertices@[0].y < self.vertices@[2].y
    }

    /// The quad strictly covers the center of the target: the center lies
    /// strictly inside its rectangle.
    pub open spec fn covers_center(self) -> bool {
        &&& self.vertices@[0].x < 0 < self.vertices@[1].x
        &&& self.vertices@[0].y < 0 < self.vertices@[2].y
    }

    /// A full quad of half-extent `scale` centered on the target.
    pub fn new(scale: i32) -> (p: Plane)
        requires
            0 < scale <= COORD_LIMIT,
        ensures
            p.vertices@ == quad_vertices(scale as int, 0, 0),
            p.wf(),
    {
        Self::new_with_offset(scale, 0, 0)
    }

    /// A quad of half-extent `scale` centered on `(x_offset, y_offset)`.
    pub fn new_with_offset(scale: i32, x_offset: i32, y_offset: i32) -> (p: Plane)
        requires
            0 < scale,
            coord_in_range(x_offset - scale),
            coord_in_range(x_offset + scale),
            coord_in_range(y_offset - scale),
            coord_in_range(y_offset + scale),
        ensures
            p.vertices@ == quad_vertices(scale as int, x_offset as int, y_offset as int),
            p.wf(),
    {
        let x_lo: i32 = x_offset - scale;
        let x_hi: i32 = x_offset + scale;
        let y_lo: i32 = y_offset - scale;
        let y_hi: i32 = y_offset + scale;
        let vertices: Vec<Vertex> = vec![
            Vertex { x: x_lo, y: y_lo, z: 0, u: 0, v: TEX_ONE },
            Vertex { x: x_hi, y: y_lo, z: 0, u: TEX_ONE, v: TEX_ONE },
            Vertex { x: x_hi, y: y_hi, z: 0, u: TEX_ONE, v: 0 },
            Vertex { x: x_lo, y: y_hi, z: 0, u: 0, v: 0 },
        ];
        let p = Plane { vertices };
        proof {
            assert(p.vertices@ =~= quad_vertices(scale as int, x_offset as int, y_offset as int));
        }
        p
    }

    /// Shifts the whole quad along the x axis.
    pub fn move_x_offset(&mut self, x_offset: i32)
        requires
            old(self).vertices@.len() == 4,
            forall|i: int| 0 <= i < 4 ==>
                coord_in_range(#[trigger] old(self).vertices@[i].x + x_offset),
        ensures
            final(self).vertices@.len() == 4,
            forall|i: int| 0 <= i < 4 ==>
                #[trigger] final(self).vertices@[i]
                    == vertex_shift_x(old(self).vertices@[i], x_offset as int),
    {
        let mut shifted: Vec<Vertex> = Vec::new();
        let mut idx: usize = 0;
        while idx < self.vertices.len()
            invariant
                idx <= self.vertices.len(),
                shifted@.len() == idx,
                forall|i: int| 0 <= i < idx ==>
                    #[trigger] shifted@[i] == vertex_shift_x(self.vertices@[i], x_offset as int),
            decreases self.vertices@.len() - idx,
        {
            let mut v = self.vertices[idx];
            let moved = v.move_x_position(x_offset);
            shifted.push(moved);
            idx = idx + 1;
        }
        self.vertices = shifted;
    }

    /// Shifts the whole quad along the y axis.
    pub fn move_y_offset(&mut self, y_offset: i32)
        requires
            old(self).vertices@.len() == 4,
            forall|i: int| 0 <= i < 4 ==>
                coord_in_range(#[trigger] old(self).vertices@[i].y + y_offset),
        ensures
            final(self).vertices@.len() == 4,
            forall|i: int| 0 <= i < 4 ==>
                #[trigger] final(self).vertices@[i]
                    == vertex_shift_y(old(self).vertices@[i], y_offset as int),
    {
        let mut shifted: Vec<Vertex> = Vec::new();
        let mut idx: usize = 0;
        while idx < self.vertices.len()
            invariant
                idx <= self.vertices.len(),
                shifted@.len() == idx,
                forall|i: int| 0 <= i < idx ==>
                    #[trigger] shifted@[i] == vertex_shift_y(self.vertices@[i], y_offset as int),
            decreases self.vertices@.len() - idx,
        {
            let mut v = self.vertices[idx];
            let moved = v.move_y_position(y_offset);
            shifted.push(moved);
            idx = idx + 1;
        }
        self.vertices = shifted;
    }

    /// A copy of the quad's corners, in order.
    pub fn get_vertices(&self) -> (r: Vec<Vertex>)
        ensures
            r@ == self.vertices@,
    {
        let mut out: Vec<Vertex> = Vec::new();
        let mut idx: usize = 0;
        while idx < self.vertices.len()
            invariant
                idx <= self.vertices.len(),
                out@ == self.vertices@.take(idx as int),
            decreases self.vertices@.len() - idx,
        {
            out.push(self.vertices[idx]);
            proof {
                assert(out@ =~= self.vertices@.take(idx + 1));
            }
            idx = idx + 1;
        }
        proof {
            assert(self.vertices@.take(self.vertices@.len() as int) =~= self.vertices@);
        }
        out
    }

    /// The index list of the quad's two triangles.
    pub fn get_indices(&self) -> (r: Vec<u16>)
        ensures
            r@ == quad_indices(),
    {
        let r: Vec<u16> = vec![0, 1, 2, 0, 2, 3];
        proof {
            assert(r@ =~= quad_indices());
        }
        r
    }

    /// Whether the quad strictly covers the center of the target.
    pub fn check_covers_center(&self) -> (r: bool)
        requires
            self.wf(),
        ensures
            r == self.covers_center(),
    {
        let v0 = self.vertices[0];
        let v1 = self.vertices[1];
        let v2 = self.vertices[2];
        v0.x < 0 && 0 < v1.x && v0.y < 0 && 0 < v2.y
    }
}

/// The six indices of the quad's two triangles.
pub open spec fn quad_indices() -> Seq<u16> {
    seq![0u16, 1u16, 2u16, 0u16, 2u16, 3u16]
}

} // verus!
