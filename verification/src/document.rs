//! The document tree and its draw list.
//!
//! A document is a tree of groups and paths. Drawing it means walking the
//! tree depth first: a group hands its transform down to its children, a path
//! is filled and then stroked, images and text are passed over. This module
//! defines the list of drawing operations that a tree stands for, each with
//! the chain of transforms that leads to it, and computes it.
use crate::color::{premultiplies, resolve_color, Color, Paint};
use crate::path::{convert_path, path_events, PathCommand, PathEvent};
use vstd::prelude::*;

verus! {

/// An affine transform, as the bit patterns of its six double-precision
/// coefficients.
#[derive(Clone, Copy, Debug, PartialEq, Eq, Hash, Structural)]
pub struct Transform {
    pub a: u64,
    pub b: u64,
    pub c: u64,
    pub d: u64,
    pub e: u64,
    pub f: u64,
}

/// The shape at the two ends of a stroked line.
#[derive(Clone, Copy, Debug, PartialEq, Eq, Hash, Structural)]
pub enum LineCap {
    Butt,
    Round,
    Square,
}

/// The shape at the corners of a stroked line.
#[derive(Clone, Copy, Debug, PartialEq, Eq, Hash, Structural)]
pub enum LineJoin {
    Miter,
    Round,
    Bevel,
}

/// How the inside of a path is painted. `alpha` is the fill's opacity on the
/// scale 0 to 255.
#[derive(Clone, Copy, Debug, PartialEq, Eq, Structural)]
pub struct Fill {
    pub paint: Paint,
    pub alpha: u8,
}

/// How the outline of a path is painted. `width` is the bit pattern of a
/// single-precision number, `alpha` the stroke's opacity on the scale 0 to
/// 255.
#[derive(Clone, Copy, Debug, PartialEq, Eq, Structural)]
pub struct Stroke {
    pub paint: Paint,
    pub alpha: u8,
    pub width: u32,
    pub linecap: LineCap,
    pub linejoin: LineJoin,
}

/// A path node.
#[derive(Clone, Debug, PartialEq, Eq)]
pub struct Path {
    pub transform: Transform,
    pub fill: Option<Fill>,
    pub stroke: Option<Stroke>,
    pub commands: Vec<PathCommand>,
}

/// A group node.
#[derive(Debug, PartialEq, Eq)]
pub struct Group {
    pub transform: Transform,
    pub children: Vec<Node>,
}

/// A node of the document tree.
#[derive(Debug, PartialEq, Eq)]
pub enum Node {
    Group(Group),
    Path(Path),
    /// An embedded image. Not rendered.
    Image,
    /// A text element. Not rendered.
    Text,
}

/// The rectangle that a document's coordinates refer to, as the bit patterns
/// of four single-precision numbers.
#[derive(Clone, Copy, Debug, PartialEq, Eq, Hash, Structural)]
pub struct ViewBox {
    pub left: u32,
    pub top: u32,
    pub right: u32,
    pub bottom: u32,
}

/// A document: its view box and the nodes below its root.
#[derive(Debug, PartialEq, Eq)]
pub struct Document {
    pub view_box: ViewBox,
    pub children: Vec<Node>,
}

/// Whether an operation fills a path or strokes it, and how.
#[derive(Clone, Copy, Debug, PartialEq, Eq, Structural)]
pub enum Style {
    Fill,
    Stroke { width: u32, linecap: LineCap, linejoin: LineJoin },
}

/// One drawing operation: triangulate `events` in the given style, map the
/// result through `transforms` (outermost first, the path's own last), and
/// give every vertex the color `color`.
#[derive(Clone, Debug, PartialEq, Eq)]
pub struct DrawOp {
    pub style: Style,
    pub color: Color,
    pub transforms: Vec<Transform>,
    pub events: Vec<PathEvent>,
}

/// A drawing operation as the tree states it, before paint is turned into
/// color and commands into events.
pub struct Planned {
    pub style: Style,
    pub paint: Paint,
    pub alpha: u8,
    pub transforms: Seq<Transform>,
    pub commands: Seq<PathCommand>,
}

/// The operations of one path under the inherited chain of transforms: its
/// fill if it has one, then its stroke if it has one.
pub open spec fn planned_path(path: Path, inherited: Seq<Transform>) -> Seq<Planned> {
    let transforms = inherited.push(path.transform);
    let fill = match path.fill {
        Some(f) => seq![
            Planned {
                style: Style::Fill,
                paint: f.paint,
                alpha: f.alpha,
                transforms,
                commands: path.commands@,
            },
        ],
        None => Seq::empty(),
    };
    let stroke = match path.stroke {
        Some(s) => seq![
            Planned {
                style: Style::Stroke { width: s.width, linecap: s.linecap, linejoin: s.linejoin },
                paint: s.paint,
                alpha: s.alpha,
                transforms,
                commands: path.commands@,
            },
        ],
        None => Seq::empty(),
    };
    fill + stroke
}

/// The operations of one node: those of its children under the chain
/// extended by its transform for a group, its own for a path, none for
/// anything else.
pub open spec fn planned_node(node: Node, inherited: Seq<Transform>) -> Seq<Planned>
    decreases node,
{
    match node {
        Node::Group(g) => planned_nodes(g.children@, inherited.push(g.transform)),
        Node::Path(p) => planned_path(p, inherited),
        _ => Seq::empty(),
    }
}

/// The operations of a list of sibling nodes, in document order.
pub open spec fn planned_nodes(nodes: Seq<Node>, inherited: Seq<Transform>) -> Seq<Planned>
    decreases nodes,
{
    if nodes.len() == 0 {
        Seq::empty()
    } else {
        planned_nodes(nodes.drop_last(), inherited) + planned_node(nodes.last(), inherited)
    }
}

/// The draw list of a document. The root hands down no transform.
pub open spec fn planned(doc: Document) -> Seq<Planned> {
    planned_nodes(doc.children@, Seq::empty())
}

/// `op` carries out `planned`: same style, same chain of transforms, the
/// events of the planned commands, and a color that the planned paint and
/// opacity may turn into.
pub open spec fn realizes(op: DrawOp, planned: Planned) -> bool {
    &&& op.style == planned.style
    &&& op.transforms@ == planned.transforms
    &&& op.events@ == path_events(planned.commands)
    &&& premultiplies(
        planned.paint.channels().0,
        planned.paint.channels().1,
        planned.paint.channels().2,
        planned.alpha,
        op.color,
    )
}

/// `ops` carries out `planned`, operation by operation.
pub open spec fn realize_all(ops: Seq<DrawOp>, planned: Seq<Planned>) -> bool {
    &&& ops.len() == planned.len()
    &&& forall|i: int| 0 <= i < ops.len() ==> realizes(#[trigger] ops[i], planned[i])
}

proof fn lemma_realize_concat(ops: Seq<DrawOp>, mid: int, a: Seq<Planned>, b: Seq<Planned>)
    requires
        0 <= mid <= ops.len(),
        realize_all(ops.subrange(0, mid), a),
        realize_all(ops.subrange(mid, ops.len() as int), b),
    ensures
        realize_all(ops, a + b),
{
    assert forall|i: int| 0 <= i < ops.len() implies realizes(#[trigger] ops[i], (a + b)[i]) by {
        if i < mid {
            assert(ops.subrange(0, mid)[i] == ops[i]);
        } else {
            assert(ops.subrange(mid, ops.len() as int)[i - mid] == ops[i]);
        }
    }
}

/// The chain `chain` with `t` added at its end.
fn extended(chain: &Vec<Transform>, t: Transform) -> (longer: Vec<Transform>)
    ensures
        longer@ == chain@.push(t),
{
    let mut longer: Vec<Transform> = Vec::new();
    let mut i: usize = 0;
    while i < chain.len()
        invariant
            i <= chain.len(),
            longer@ == chain@.subrange(0, i as int),
        decreases chain.len() - i,
    {
        longer.push(chain[i]);
        assert(chain@.subrange(0, i + 1) =~= chain@.subrange(0, i as int).push(chain@[i as int]));
        i = i + 1;
    }
    assert(chain@.subrange(0, i as int) =~= chain@);
    longer.push(t);
    longer
}

/// Appends the operations of `path` to `ops`.
fn plan_path(path: &Path, inherited: &Vec<Transform>, ops: &mut Vec<DrawOp>)
    ensures
        final(ops)@.len() >= old(ops)@.len(),
        final(ops)@.subrange(0, old(ops)@.len() as int) == old(ops)@,
        realize_all(
            final(ops)@.subrange(old(ops)@.len() as int, final(ops)@.len() as int),
            planned_path(*path, inherited@),
        ),
{
    let ghost start = ops@.len() as int;
    let ghost target = planned_path(*path, inherited@);
    if let Some(fill) = path.fill {
        let op = DrawOp {
            style: Style::Fill,
            color: resolve_color(&fill.paint, fill.alpha),
            transforms: extended(inherited, path.transform),
            events: convert_path(path.commands.as_slice()),
        };
        assert(realizes(op, target[0]));
        ops.push(op);
    }
    let ghost filled = ops@.len() as int;
    if let Some(stroke) = path.stroke {
        let op = DrawOp {
            style: Style::Stroke {
                width: stroke.width,
                linecap: stroke.linecap,
                linejoin: stroke.linejoin,
            },
            color: resolve_color(&stroke.paint, stroke.alpha),
            transforms: extended(inherited, path.transform),
            events: convert_path(path.commands.as_slice()),
        };
        assert(realizes(op, target[filled - start]));
        ops.push(op);
    }
    assert(ops@.subrange(0, start) =~= old(ops)@);
}

/// Appends the operations of `node` to `ops`.
fn plan_node(node: &Node, inherited: &Vec<Transform>, ops: &mut Vec<DrawOp>)
    ensures
        final(ops)@.len() >= old(ops)@.len(),
        final(ops)@.subrange(0, old(ops)@.len() as int) == old(ops)@,
        realize_all(
            final(ops)@.subrange(old(ops)@.len() as int, final(ops)@.len() as int),
            planned_node(*node, inherited@),
        ),
    decreases node,
{
    match node {
        Node::Group(g) => {
            let chain = extended(inherited, g.transform);
            plan_nodes(&g.children, &chain, ops);
        },
        Node::Path(p) => {
            plan_path(p, inherited, ops);
        },
        _ => {
            assert(ops@.subrange(0, ops@.len() as int) =~= ops@);
        },
    }
}

/// Appends the operations of the sibling nodes `nodes` to `ops`.
fn plan_nodes(nodes: &Vec<Node>, inherited: &Vec<Transform>, ops: &mut Vec<DrawOp>)
    ensures
        final(ops)@.len() >= old(ops)@.len(),
        final(ops)@.subrange(0, old(ops)@.len() as int) == old(ops)@,
        realize_all(
            final(ops)@.subrange(old(ops)@.len() as int, final(ops)@.len() as int),
            planned_nodes(nodes@, inherited@),
        ),
    decreases nodes,
{
    let ghost start = ops@.len() as int;
    let mut i: usize = 0;
    assert(ops@.subrange(0, start) =~= ops@);
    while i < nodes.len()
        invariant
            i <= nodes.len(),
            start == old(ops)@.len(),
            ops@.len() >= start,
            ops@.subrange(0, start) == old(ops)@,
            realize_all(
                ops@.subrange(start, ops@.len() as int),
                planned_nodes(nodes@.take(i as int), inherited@),
            ),
        decreases nodes.len() - i,
    {
        let ghost before = ops@;
        let ghost mid = ops@.len() as int;
        plan_node(&nodes[i], inherited, ops);
        proof {
            let done = planned_nodes(nodes@.take(i as int), inherited@);
            let added = planned_node(nodes@[i as int], inherited@);
            let window = ops@.subrange(start, ops@.len() as int);
            assert(window.subrange(0, mid - start) =~= before.subrange(start, mid)) by {
                assert(ops@.subrange(0, mid) == before);
                assert forall|k: int| 0 <= k < mid - start implies window[k] == before[start + k] by {
                    assert(ops@.subrange(0, mid)[start + k] == ops@[start + k]);
                }
            }
            assert(window.subrange(mid - start, window.len() as int) =~= ops@.subrange(
                mid,
                ops@.len() as int,
            ));
            lemma_realize_concat(window, mid - start, done, added);
            assert(nodes@.take(i + 1).drop_last() =~= nodes@.take(i as int));
            assert(nodes@.take(i + 1).last() == nodes@[i as int]);
            assert(ops@.subrange(0, start) =~= old(ops)@) by {
                assert forall|k: int| 0 <= k < start implies ops@[k] == old(ops)@[k] by {
                    assert(ops@.subrange(0, mid)[k] == ops@[k]);
                    assert(before.subrange(0, start)[k] == before[k]);
                }
            }
        }
        i = i + 1;
    }
    assert(nodes@.take(i as int) =~= nodes@);
}

/// The draw list of `doc`: one operation per fill and per stroke of every
/// path, in document order, each with the transforms of the groups around
/// the path followed by the path's own.
pub fn plan(doc: &Document) -> (ops: Vec<DrawOp>)
    ensures
        realize_all(ops@, planned(*doc)),
{
    let mut ops: Vec<DrawOp> = Vec::new();
    let chain: Vec<Transform> = Vec::new();
    plan_nodes(&doc.children, &chain, &mut ops);
    assert(ops@.subrange(0, ops@.len() as int) =~= ops@);
    ops
}

} // verus!
