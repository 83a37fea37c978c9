//! Path event adapter.
//!
//! A path arrives as a flat stream of move/line/curve/close commands with no
//! explicit terminator per subpath. Triangulation wants every subpath
//! bracketed by a `Begin` and an `End` event. This module defines that
//! conversion as a mathematical function on sequences, implements it as a
//! pull-style iterator, and proves that the output is well formed exactly
//! when every subpath of the input starts with a move-to.
use vstd::prelude::*;

verus! {

/// A point of the plane.
///
/// Each coordinate is the bit pattern of a single-precision number. The
/// adapter only carries coordinates from commands to events and compares
/// them bit for bit; it never computes with them.
#[derive(Clone, Copy, Debug, PartialEq, Eq, Hash, Structural)]
pub struct Point {
    pub x: u32,
    pub y: u32,
}

impl Point {
    /// The point whose two coordinates are positive zero.
    pub open spec fn zero() -> Point {
        Point { x: 0, y: 0 }
    }

    pub fn new(x: u32, y: u32) -> (p: Point)
        ensures
            p == (Point { x, y }),
    {
        Point { x, y }
    }

    pub fn origin() -> (p: Point)
        ensures
            p == Point::zero(),
    {
        Point { x: 0, y: 0 }
    }
}

/// One command of a path's command stream, in absolute coordinates.
#[derive(Clone, Copy, Debug, PartialEq, Eq, Structural)]
pub enum PathCommand {
    MoveTo(Point),
    LineTo(Point),
    CurveTo { ctrl1: Point, ctrl2: Point, to: Point },
    ClosePath,
}

/// One event of the stream that triangulation consumes.
#[derive(Clone, Copy, Debug, PartialEq, Eq, Structural)]
pub enum PathEvent {
    Begin { at: Point },
    Line { from: Point, to: Point },
    Cubic { from: Point, ctrl1: Point, ctrl2: Point, to: Point },
    End { last: Point, first: Point, close: bool },
}

/// Where the pen is while a command stream is read.
#[derive(Clone, Copy, Debug, PartialEq, Eq, Structural)]
pub struct Cursor {
    /// The current point.
    pub current: Point,
    /// The first point of the current subpath.
    pub start: Point,
    /// Whether a subpath is open, that is, still owes its `End` event.
    pub open: bool,
}

impl Cursor {
    /// The cursor before any command: at the origin, with no subpath open.
    pub open spec fn initial() -> Cursor {
        Cursor { current: Point::zero(), start: Point::zero(), open: false }
    }

    /// The cursor after `cmd`.
    pub open spec fn advance(self, cmd: PathCommand) -> Cursor {
        match cmd {
            PathCommand::MoveTo(p) => Cursor { current: p, start: p, open: true },
            PathCommand::LineTo(p) => Cursor { current: p, start: self.start, open: true },
            PathCommand::CurveTo { ctrl1, ctrl2, to } => Cursor {
                current: to,
                start: self.start,
                open: true,
            },
            PathCommand::ClosePath => Cursor {
                current: self.start,
                start: self.start,
                open: false,
            },
        }
    }

    /// The events that `cmd` gives rise to, one or two of them.
    ///
    /// A move-to while a subpath is open first ends that subpath, unclosed.
    pub open spec fn emit(self, cmd: PathCommand) -> Seq<PathEvent> {
        match cmd {
            PathCommand::MoveTo(p) => if self.open {
                seq![
                    PathEvent::End { last: self.current, first: self.start, close: false },
                    PathEvent::Begin { at: p },
                ]
            } else {
                seq![PathEvent::Begin { at: p }]
            },
            PathCommand::LineTo(p) => seq![PathEvent::Line { from: self.current, to: p }],
            PathCommand::CurveTo { ctrl1, ctrl2, to } => seq![
                PathEvent::Cubic { from: self.current, ctrl1, ctrl2, to },
            ],
            PathCommand::ClosePath => seq![
                PathEvent::End { last: self.current, first: self.start, close: true },
            ],
        }
    }

    /// The events owed at the end of the stream: the `End` of a subpath that
    /// is still open.
    pub open spec fn flush(self) -> Seq<PathEvent> {
        if self.open {
            seq![PathEvent::End { last: self.current, first: self.start, close: false }]
        } else {
            Seq::empty()
        }
    }
}

/// The events for `cmds` when reading starts with the pen at `cursor`.
pub open spec fn events_from(cursor: Cursor, cmds: Seq<PathCommand>) -> Seq<PathEvent>
    decreases cmds.len(),
{
    if cmds.len() == 0 {
        cursor.flush()
    } else {
        cursor.emit(cmds[0]) + events_from(cursor.advance(cmds[0]), cmds.drop_first())
    }
}

/// The event stream of a whole command stream.
pub open spec fn path_events(cmds: Seq<PathCommand>) -> Seq<PathEvent> {
    events_from(Cursor::initial(), cmds)
}

/// Every subpath of `cmds` starts with a move-to: a command that is not a
/// move-to never comes first and never directly follows a close-path.
pub open spec fn starts_with_moves(cmds: Seq<PathCommand>) -> bool {
    forall|i: int|
        0 <= i < cmds.len() ==> (#[trigger] cmds[i]) is MoveTo || (i > 0 && !(cmds[i - 1] is ClosePath))
}

/// `events` continues correctly from the position `at`.
///
/// `at` is `None` between subpaths, and inside a subpath it holds the
/// subpath's first point and the current point. Between subpaths only
/// `Begin` may come. Inside, an edge must leave from the current point, and
/// `End` must name the current point as last and the subpath's first point
/// as first. The stream must stop between subpaths.
pub open spec fn continues(events: Seq<PathEvent>, at: Option<(Point, Point)>) -> bool
    decreases events.len(),
{
    if events.len() == 0 {
        at is None
    } else {
        let rest = events.drop_first();
        match (events[0], at) {
            (PathEvent::Begin { at: p }, None) => continues(rest, Some((p, p))),
            (PathEvent::Line { from, to }, Some((first, current))) => from == current && continues(
                rest,
                Some((first, to)),
            ),
            (PathEvent::Cubic { from, ctrl1, ctrl2, to }, Some((first, current))) => from == current
                && continues(rest, Some((first, to))),
            (PathEvent::End { last, first: named, close }, Some((first, current))) => last
                == current && named == first && continues(rest, None),
            _ => false,
        }
    }
}

/// The event stream is a sequence of complete subpaths, each a `Begin`, then
/// edges that join end to end, then an `End` that names the subpath's two
/// end points.
pub open spec fn well_formed(events: Seq<PathEvent>) -> bool {
    continues(events, None)
}

/// The position that a cursor stands for.
spec fn position(cursor: Cursor) -> Option<(Point, Point)> {
    if cursor.open {
        Some((cursor.start, cursor.current))
    } else {
        None
    }
}

/// The recursive reading of `starts_with_moves`, from a point in the stream
/// where a subpath is open or not.
spec fn moves_first(open: bool, cmds: Seq<PathCommand>) -> bool
    decreases cmds.len(),
{
    cmds.len() == 0 || ((open || cmds[0] is MoveTo) && moves_first(
        !(cmds[0] is ClosePath),
        cmds.drop_first(),
    ))
}

proof fn lemma_moves_first(open: bool, cmds: Seq<PathCommand>)
    ensures
        moves_first(open, cmds) <==> (forall|i: int|
            0 <= i < cmds.len() ==> (#[trigger] cmds[i]) is MoveTo || (if i == 0 {
                open
            } else {
                !(cmds[i - 1] is ClosePath)
            })),
    decreases cmds.len(),
{
    if cmds.len() > 0 {
        let tail = cmds.drop_first();
        let next = !(cmds[0] is ClosePath);
        lemma_moves_first(next, tail);
        if moves_first(open, cmds) {
            assert forall|i: int| 0 <= i < cmds.len() implies (#[trigger] cmds[i]) is MoveTo || (if i
                == 0 {
                open
            } else {
                !(cmds[i - 1] is ClosePath)
            }) by {
                if i > 0 {
                    assert(tail[i - 1] == cmds[i]);
                    if i > 1 {
                        assert(tail[i - 2] == cmds[i - 1]);
                    }
                }
            }
        } else if open || cmds[0] is MoveTo {
            let j = choose|j: int|
                0 <= j < tail.len() && !((#[trigger] tail[j]) is MoveTo || (if j == 0 {
                    next
                } else {
                    !(tail[j - 1] is ClosePath)
                }));
            assert(tail[j] == cmds[j + 1]);
            if j > 0 {
                assert(tail[j - 1] == cmds[j]);
            }
            assert(!(cmds[j + 1] is MoveTo || !(cmds[j] is ClosePath)));
        } else {
            assert(!(cmds[0] is MoveTo || open));
        }
    }
}

proof fn lemma_continues_one(e: PathEvent, rest: Seq<PathEvent>, at: Option<(Point, Point)>)
    ensures
        continues(seq![e] + rest, at) <==> match (e, at) {
            (PathEvent::Begin { at: p }, None) => continues(rest, Some((p, p))),
            (PathEvent::Line { from, to }, Some((first, current))) => from == current && continues(
                rest,
                Some((first, to)),
            ),
            (PathEvent::Cubic { from, ctrl1, ctrl2, to }, Some((first, current))) => from == current
                && continues(rest, Some((first, to))),
            (PathEvent::End { last, first: named, close }, Some((first, current))) => last
                == current && named == first && continues(rest, None),
            _ => false,
        },
{
    let events = seq![e] + rest;
    assert(events.len() > 0);
    assert(events[0] == e);
    assert(events.drop_first() =~= rest);
}

/// One command's events continue correctly from the cursor's position
/// exactly when the command is a move-to or meets an open subpath; what
/// follows then continues from the advanced cursor's position.
proof fn lemma_continues_step(cursor: Cursor, cmd: PathCommand, rest: Seq<PathEvent>)
    ensures
        continues(cursor.emit(cmd) + rest, position(cursor)) <==> ((cmd is MoveTo || cursor.open)
            && continues(rest, position(cursor.advance(cmd)))),
{
    match cmd {
        PathCommand::MoveTo(p) => {
            let begin = PathEvent::Begin { at: p };
            lemma_continues_one(begin, rest, None);
            if cursor.open {
                let end = PathEvent::End {
                    last: cursor.current,
                    first: cursor.start,
                    close: false,
                };
                lemma_continues_one(end, seq![begin] + rest, position(cursor));
                assert(seq![end] + (seq![begin] + rest) =~= seq![end, begin] + rest);
            }
        },
        PathCommand::LineTo(p) => {
            lemma_continues_one(
                PathEvent::Line { from: cursor.current, to: p },
                rest,
                position(cursor),
            );
        },
        PathCommand::CurveTo { ctrl1, ctrl2, to } => {
            lemma_continues_one(
                PathEvent::Cubic { from: cursor.current, ctrl1, ctrl2, to },
                rest,
                position(cursor),
            );
        },
        PathCommand::ClosePath => {
            lemma_continues_one(
                PathEvent::End { last: cursor.current, first: cursor.start, close: true },
                rest,
                position(cursor),
            );
        },
    }
}

/// Reading on from the middle of a stream: the events continue correctly
/// from the cursor's position exactly when, from here on, every command
/// that meets no open subpath is a move-to.
proof fn lemma_continues_from(cursor: Cursor, cmds: Seq<PathCommand>)
    ensures
        continues(events_from(cursor, cmds), position(cursor)) <==> moves_first(cursor.open, cmds),
    decreases cmds.len(),
{
    if cmds.len() == 0 {
        if cursor.open {
            let e = PathEvent::End { last: cursor.current, first: cursor.start, close: false };
            lemma_continues_one(e, Seq::empty(), position(cursor));
            assert(seq![e] + Seq::<PathEvent>::empty() =~= seq![e]);
            assert(continues(Seq::<PathEvent>::empty(), None));
        }
    } else {
        let next = cursor.advance(cmds[0]);
        let tail = cmds.drop_first();
        lemma_continues_from(next, tail);
        lemma_continues_step(cursor, cmds[0], events_from(next, tail));
        assert(next.open == !(cmds[0] is ClosePath));
    }
}

/// The adapter's output is well formed exactly when every subpath of the
/// command stream starts with a move-to. In particular the empty stream
/// gives the empty, well-formed event stream.
pub proof fn lemma_well_formed_iff_starts_with_moves(cmds: Seq<PathCommand>)
    ensures
        well_formed(path_events(cmds)) <==> starts_with_moves(cmds),
{
    lemma_continues_from(Cursor::initial(), cmds);
    lemma_moves_first(false, cmds);
}

/// A command stream gives at least one event per command, and at most two
/// per command plus the closing one.
pub proof fn lemma_event_count(cursor: Cursor, cmds: Seq<PathCommand>)
    ensures
        cmds.len() <= events_from(cursor, cmds).len() <= 2 * cmds.len() + 1,
    decreases cmds.len(),
{
    if cmds.len() > 0 {
        lemma_event_count(cursor.advance(cmds[0]), cmds.drop_first());
    }
}

/// Reads a command stream and hands out its events one at a time.
pub struct PathConvIter<'a> {
    commands: &'a [PathCommand],
    pos: usize,
    cursor: Cursor,
    deferred: Option<PathEvent>,
}

impl<'a> PathConvIter<'a> {
    #[verifier::type_invariant]
    spec fn inv(self) -> bool {
        self.pos <= self.commands@.len()
    }

    /// The events that are still to come, in order.
    pub closed spec fn pending(self) -> Seq<PathEvent> {
        let rest = events_from(
            self.cursor,
            self.commands@.subrange(self.pos as int, self.commands@.len() as int),
        );
        match self.deferred {
            Some(e) => seq![e] + rest,
            None => rest,
        }
    }

    /// An iterator over the events of `commands`.
    pub fn new(commands: &'a [PathCommand]) -> (it: Self)
        ensures
            it.pending() == path_events(commands@),
    {
        assert(commands@.subrange(0, commands@.len() as int) =~= commands@);
        PathConvIter {
            commands,
            pos: 0,
            cursor: Cursor { current: Point::origin(), start: Point::origin(), open: false },
            deferred: None,
        }
    }

    /// The next event, or `None` when the stream is exhausted.
    pub fn next(&mut self) -> (event: Option<PathEvent>)
        ensures
            match event {
                Some(e) => old(self).pending().len() > 0 && e == old(self).pending()[0]
                    && final(self).pending() == old(self).pending().drop_first(),
                None => old(self).pending().len() == 0 && final(self).pending().len() == 0,
            },
    {
        proof {
            use_type_invariant(&*self);
        }
        let ghost before = self.pending();
        let ghost rest_cmds = self.commands@.subrange(
            self.pos as int,
            self.commands@.len() as int,
        );
        if let Some(e) = self.deferred {
            self.deferred = None;
            assert(before.drop_first() =~= self.pending());
            return Some(e);
        }
        if self.pos < self.commands.len() {
            let cmd = self.commands[self.pos];
            let ghost tail = self.commands@.subrange(
                self.pos as int + 1,
                self.commands@.len() as int,
            );
            let ghost after = events_from(self.cursor.advance(cmd), tail);
            proof {
                assert(rest_cmds[0] == cmd);
                assert(rest_cmds.drop_first() =~= tail);
                assert(before == self.cursor.emit(cmd) + after);
            }
            let cursor = self.cursor;
            self.pos = self.pos + 1;
            match cmd {
                PathCommand::MoveTo(p) => {
                    self.cursor = Cursor { current: p, start: p, open: true };
                    if cursor.open {
                        self.deferred = Some(PathEvent::Begin { at: p });
                        let end = PathEvent::End {
                            last: cursor.current,
                            first: cursor.start,
                            close: false,
                        };
                        assert(before.drop_first() =~= seq![PathEvent::Begin { at: p }] + after);
                        Some(end)
                    } else {
                        assert(before.drop_first() =~= after);
                        Some(PathEvent::Begin { at: p })
                    }
                },
                PathCommand::LineTo(p) => {
                    self.cursor = Cursor { current: p, start: cursor.start, open: true };
                    assert(before.drop_first() =~= after);
                    Some(PathEvent::Line { from: cursor.current, to: p })
                },
                PathCommand::CurveTo { ctrl1, ctrl2, to } => {
                    self.cursor = Cursor { current: to, start: cursor.start, open: true };
                    assert(before.drop_first() =~= after);
                    Some(PathEvent::Cubic { from: cursor.current, ctrl1, ctrl2, to })
                },
                PathCommand::ClosePath => {
                    self.cursor = Cursor {
                        current: cursor.start,
                        start: cursor.start,
                        open: false,
                    };
                    assert(before.drop_first() =~= after);
                    Some(PathEvent::End { last: cursor.current, first: cursor.start, close: true })
                },
            }
        } else if self.cursor.open {
            let cursor = self.cursor;
            self.cursor = Cursor { current: cursor.current, start: cursor.start, open: false };
            assert(rest_cmds.len() == 0);
            assert(before.drop_first() =~= self.pending());
            Some(PathEvent::End { last: cursor.current, first: cursor.start, close: false })
        } else {
            assert(rest_cmds.len() == 0);
            None
        }
    }
}

/// Converts a whole command stream into its event stream.
pub fn convert_path(commands: &[PathCommand]) -> (events: Vec<PathEvent>)
    ensures
        events@ == path_events(commands@),
{
    let mut events: Vec<PathEvent> = Vec::new();
    let mut it = PathConvIter::new(commands);
    loop
        invariant
            events@ + it.pending() == path_events(commands@),
        ensures
            events@ == path_events(commands@),
        decreases it.pending().len(),
    {
        let ghost before = it.pending();
        match it.next() {
            Some(e) => {
                assert(events@.push(e) + before.drop_first() =~= events@ + before);
                events.push(e);
            },
            None => {
                assert(events@ + before =~= events@);
                break ;
            },
        }
    }
    events
}

} // verus!
