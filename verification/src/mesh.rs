//! Triangle meshes and their recoloring.
use crate::color::Color;
use crate::path::Point;
use vstd::prelude::*;

verus! {

/// A mesh vertex: where it is and what color it has.
#[derive(Clone, Copy, Debug, PartialEq, Eq, Structural)]
pub struct Vertex {
    pub pos: Point,
    pub color: Color,
}

/// A triangle mesh: vertices, and indices into them, three per triangle.
#[derive(Clone, Debug, PartialEq, Eq)]
pub struct Mesh {
    pub vertices: Vec<Vertex>,
    pub indices: Vec<u32>,
}

/// What a mesh holds: its vertices and its indices, as sequences.
pub struct MeshView {
    pub vertices: Seq<Vertex>,
    pub indices: Seq<u32>,
}

impl View for Mesh {
    type V = MeshView;

    open spec fn view(&self) -> MeshView {
        MeshView { vertices: self.vertices@, indices: self.indices@ }
    }
}

impl Mesh {
    /// The positions of the vertices, in order.
    pub open spec fn positions(self) -> Seq<Point> {
        Seq::new(self.vertices@.len(), |i: int| self.vertices@[i].pos)
    }

    /// The colors of the vertices, in order.
    pub open spec fn colors(self) -> Seq<Color> {
        Seq::new(self.vertices@.len(), |i: int| self.vertices@[i].color)
    }

    /// The mesh without vertices.
    pub fn new() -> (m: Mesh)
        ensures
            m.vertices@.len() == 0,
            m.indices@.len() == 0,
    {
        Mesh { vertices: Vec::new(), indices: Vec::new() }
    }

    /// A copy of the mesh.
    pub fn duplicate(&self) -> (m: Mesh)
        ensures
            m@ == self@,
    {
        let mut vertices: Vec<Vertex> = Vec::new();
        let mut i: usize = 0;
        while i < self.vertices.len()
            invariant
                i <= self.vertices.len(),
                vertices@ == self.vertices@.subrange(0, i as int),
            decreases self.vertices.len() - i,
        {
            vertices.push(self.vertices[i]);
            assert(self.vertices@.subrange(0, i + 1) =~= self.vertices@.subrange(0, i as int).push(
                self.vertices@[i as int],
            ));
            i = i + 1;
        }
        assert(self.vertices@.subrange(0, i as int) =~= self.vertices@);
        let mut indices: Vec<u32> = Vec::new();
        let mut j: usize = 0;
        while j < self.indices.len()
            invariant
                j <= self.indices.len(),
                indices@ == self.indices@.subrange(0, j as int),
            decreases self.indices.len() - j,
        {
            indices.push(self.indices[j]);
            assert(self.indices@.subrange(0, j + 1) =~= self.indices@.subrange(0, j as int).push(
                self.indices@[j as int],
            ));
            j = j + 1;
        }
        assert(self.indices@.subrange(0, j as int) =~= self.indices@);
        Mesh { vertices, indices }
    }

    /// Settles what a drawing operation appended to the mesh. `vertices` and
    /// `indices` are the lengths the mesh had before the operation. If the
    /// operation went well (`ok`), what it appended is kept. If it failed, the
    /// mesh is cut back to those lengths, so that a path which cannot be
    /// triangulated leaves no trace and the paths after it are still drawn.
    pub fn keep_or_drop(&mut self, vertices: usize, indices: usize, ok: bool)
        ensures
            ok ==> final(self)@ == old(self)@,
            !ok ==> final(self).vertices@ == (if vertices <= old(self).vertices@.len() {
                old(self).vertices@.take(vertices as int)
            } else {
                old(self).vertices@
            }),
            !ok ==> final(self).indices@ == (if indices <= old(self).indices@.len() {
                old(self).indices@.take(indices as int)
            } else {
                old(self).indices@
            }),
    {
        if !ok {
            self.vertices.truncate(vertices);
            self.indices.truncate(indices);
        }
    }

    /// Passes every vertex color through `remap`. Positions and indices stay
    /// as they are.
    pub fn recolor<F: Fn(Color) -> Color>(&mut self, remap: &F)
        requires
            forall|c: Color| call_requires(remap, (c,)),
        ensures
            final(self).positions() == old(self).positions(),
            final(self).indices@ == old(self).indices@,
            final(self).vertices@.len() == old(self).vertices@.len(),
            forall|i: int|
                0 <= i < old(self).vertices@.len() ==> call_ensures(
                    remap,
                    (old(self).vertices@[i].color,),
                    #[trigger] final(self).vertices@[i].color,
                ),
    {
        let n = self.vertices.len();
        let mut i: usize = 0;
        while i < n
            invariant
                i <= n,
                n == self.vertices@.len(),
                n == old(self).vertices@.len(),
                self.indices@ == old(self).indices@,
                forall|c: Color| call_requires(remap, (c,)),
                forall|k: int| 0 <= k < n ==> (#[trigger] self.vertices@[k]).pos == old(self).vertices@[k].pos,
                forall|k: int|
                    0 <= k < i ==> call_ensures(
                        remap,
                        (old(self).vertices@[k].color,),
                        #[trigger] self.vertices@[k].color,
                    ),
                forall|k: int| i <= k < n ==> (#[trigger] self.vertices@[k]).color == old(self).vertices@[k].color,
            decreases n - i,
        {
            let v = self.vertices[i];
            let color = remap(v.color);
            self.vertices.set(i, Vertex { pos: v.pos, color });
            i = i + 1;
        }
        assert(self.positions() =~= old(self).positions());
    }

    /// Gives every vertex the color `color`. Positions and indices stay as
    /// they are.
    pub fn paint(&mut self, color: Color)
        ensures
            final(self).positions() == old(self).positions(),
            final(self).indices@ == old(self).indices@,
            final(self).vertices@.len() == old(self).vertices@.len(),
            forall|i: int|
                0 <= i < old(self).vertices@.len() ==> (#[trigger] final(self).vertices@[i]).color == color,
    {
        let n = self.vertices.len();
        let mut i: usize = 0;
        while i < n
            invariant
                i <= n,
                n == self.vertices@.len(),
                n == old(self).vertices@.len(),
                self.indices@ == old(self).indices@,
                forall|k: int| 0 <= k < n ==> (#[trigger] self.vertices@[k]).pos == old(self).vertices@[k].pos,
                forall|k: int| 0 <= k < i ==> (#[trigger] self.vertices@[k]).color == color,
            decreases n - i,
        {
            let v = self.vertices[i];
            self.vertices.set(i, Vertex { pos: v.pos, color });
            i = i + 1;
        }
        assert(self.positions() =~= old(self).positions());
    }
}

} // verus!
