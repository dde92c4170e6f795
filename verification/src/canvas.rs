//! The drawing canvas: static obstacles are drawn as figures, one point per
//! click of the primary button, and a click of the secondary button closes the
//! figure being drawn and opens a new one. In the other modes a click places
//! the start point, the end point, or the position of the next moving obstacle.
use vstd::prelude::*;

verus! {

/// A point on the canvas. Each coordinate is held as the bit pattern of its
/// single-precision value. The derived `==` compares those patterns; the
/// canvas itself compares points as floating-point values are compared (see
/// `same_point`).
#[derive(Clone, Copy, Debug, PartialEq, Eq, Structural)]
pub struct CanvasPoint {
    pub x: u32,
    pub y: u32,
}

/// What a click on the canvas does.
#[derive(Clone, Copy, Debug, PartialEq, Eq, Structural)]
pub enum DrawMode {
    /// Places the start point of the route.
    Start,
    /// Places the end point of the route.
    End,
    /// Places the position of the next moving obstacle.
    Dym,
    /// Adds points to the static obstacle being drawn.
    Stat,
}

/// What the canvas holds, as mathematical values.
pub struct PaintingModel {
    pub figures: Seq<Seq<CanvasPoint>>,
    pub mode: DrawMode,
    pub start: CanvasPoint,
    pub end: CanvasPoint,
    pub obstacle: CanvasPoint,
}

/// The single-precision value with bit pattern `b` is not a number.
pub open spec fn is_nan_bits(b: u32) -> bool {
    (b & 0x7f80_0000u32) == 0x7f80_0000u32 && (b & 0x007f_ffffu32) != 0
}

/// The single-precision value with bit pattern `b` is zero, of either sign.
pub open spec fn is_zero_bits(b: u32) -> bool {
    (b & 0x7fff_ffffu32) == 0
}

/// The single-precision values with bit patterns `a` and `b` compare equal:
/// the same pattern that is not a NaN, or two zeros of any sign.
pub open spec fn coord_eq(a: u32, b: u32) -> bool {
    (a == b && !is_nan_bits(a)) || (is_zero_bits(a) && is_zero_bits(b))
}

/// The two points compare equal as pairs of single-precision values.
pub open spec fn same_point(p: CanvasPoint, q: CanvasPoint) -> bool {
    coord_eq(p.x, q.x) && coord_eq(p.y, q.y)
}

/// Whether `p` and `q` compare equal as pairs of single-precision values.
pub fn points_equal(p: CanvasPoint, q: CanvasPoint) -> (b: bool)
    ensures
        b == same_point(p, q),
{
    let x_eq = (p.x == q.x && !((p.x & 0x7f80_0000u32) == 0x7f80_0000u32 && (p.x & 0x007f_ffffu32)
        != 0)) || ((p.x & 0x7fff_ffffu32) == 0 && (q.x & 0x7fff_ffffu32) == 0);
    let y_eq = (p.y == q.y && !((p.y & 0x7f80_0000u32) == 0x7f80_0000u32 && (p.y & 0x007f_ffffu32)
        != 0)) || ((p.y & 0x7fff_ffffu32) == 0 && (q.y & 0x7fff_ffffu32) == 0);
    x_eq && y_eq
}

/// No two neighbouring points of `f` compare equal.
pub open spec fn no_repeats(f: Seq<CanvasPoint>) -> bool {
    forall|j: int| 0 < j < f.len() ==> !same_point(#[trigger] f[j], f[j - 1])
}

/// A finished figure: at least two points, the last one is the first one, and
/// apart from that closing point no two neighbouring points are the same.
pub open spec fn is_closed_figure(f: Seq<CanvasPoint>) -> bool {
    &&& f.len() >= 2
    &&& f.last() == f[0]
    &&& no_repeats(f.drop_last())
}

/// Every figure but the last is finished, and the last one, the figure being
/// drawn, has no two neighbouring points the same.
pub open spec fn figures_wf(figs: Seq<Seq<CanvasPoint>>) -> bool {
    &&& forall|i: int| 0 <= i < figs.len() - 1 ==> #[trigger] is_closed_figure(figs[i])
    &&& figs.len() > 0 ==> no_repeats(figs.last())
}

/// The figures at the start of a frame: an empty figure to draw into is opened
/// when there is none.
pub open spec fn opened(figs: Seq<Seq<CanvasPoint>>) -> Seq<Seq<CanvasPoint>> {
    if figs.len() == 0 {
        seq![Seq::empty()]
    } else {
        figs
    }
}

/// Whether a primary click at `p` adds `p` to the figure being drawn: it does
/// unless `p` compares equal to that figure's last point.
pub open spec fn adds_point(figs: Seq<Seq<CanvasPoint>>, p: CanvasPoint) -> bool {
    figs.last().len() == 0 || !same_point(figs.last().last(), p)
}

/// The figures after a primary click at `p`.
pub open spec fn with_point(figs: Seq<Seq<CanvasPoint>>, p: CanvasPoint) -> Seq<Seq<CanvasPoint>> {
    if adds_point(figs, p) {
        figs.update(figs.len() - 1, figs.last().push(p))
    } else {
        figs
    }
}

/// The figures after a secondary click: a figure with points is closed by its
/// first point and a new empty figure is opened; an empty one is left as it is.
pub open spec fn with_figure_closed(figs: Seq<Seq<CanvasPoint>>) -> Seq<Seq<CanvasPoint>> {
    if figs.last().len() == 0 {
        figs
    } else {
        figs.update(figs.len() - 1, figs.last().push(figs.last()[0])).push(Seq::empty())
    }
}

/// The figures after a frame in the drawing mode with the given clicks.
pub open spec fn drawn(
    figs: Seq<Seq<CanvasPoint>>,
    primary: Option<CanvasPoint>,
    secondary: bool,
) -> Seq<Seq<CanvasPoint>> {
    let f1 = opened(figs);
    let f2 = match primary {
        Some(p) => with_point(f1, p),
        None => f1,
    };
    if secondary {
        with_figure_closed(f2)
    } else {
        f2
    }
}

/// The canvas after a frame in which the primary button was clicked at
/// `primary` (`None`: not clicked) and the secondary one was clicked or not.
pub open spec fn after_input(
    m: PaintingModel,
    primary: Option<CanvasPoint>,
    secondary: bool,
) -> PaintingModel {
    PaintingModel {
        figures: if m.mode == DrawMode::Stat {
            drawn(m.figures, primary, secondary)
        } else {
            opened(m.figures)
        },
        mode: m.mode,
        start: if m.mode == DrawMode::Start && primary is Some {
            primary->0
        } else {
            m.start
        },
        end: if m.mode == DrawMode::End && primary is Some {
            primary->0
        } else {
            m.end
        },
        obstacle: if m.mode == DrawMode::Dym && primary is Some {
            primary->0
        } else {
            m.obstacle
        },
    }
}

/// The state of the drawing canvas.
pub struct Painting {
    srodowisko: Vec<Vec<CanvasPoint>>,
    my_enum: DrawMode,
    individual_start: CanvasPoint,
    individual_end: CanvasPoint,
    obstacle_pos: CanvasPoint,
}

impl View for Painting {
    type V = PaintingModel;

    closed spec fn view(&self) -> PaintingModel {
        PaintingModel {
            figures: self.srodowisko@.map_values(|f: Vec<CanvasPoint>| f@),
            mode: self.my_enum,
            start: self.individual_start,
            end: self.individual_end,
            obstacle: self.obstacle_pos,
        }
    }
}

impl Painting {
    /// An empty canvas in the drawing mode, with the start point, the end point
    /// and the obstacle position at the origin.
    pub fn new() -> (p: Painting)
        ensures
            p@.figures == Seq::<Seq<CanvasPoint>>::empty(),
            p@.mode == DrawMode::Stat,
            p@.start == (CanvasPoint { x: 0, y: 0 }),
            p@.end == (CanvasPoint { x: 0, y: 0 }),
            p@.obstacle == (CanvasPoint { x: 0, y: 0 }),
            figures_wf(p@.figures),
    {
        let p = Painting {
            srodowisko: Vec::new(),
            my_enum: DrawMode::Stat,
            individual_start: CanvasPoint { x: 0, y: 0 },
            individual_end: CanvasPoint { x: 0, y: 0 },
            obstacle_pos: CanvasPoint { x: 0, y: 0 },
        };
        assert(p@.figures =~= Seq::<Seq<CanvasPoint>>::empty());
        p
    }

    /// The figures drawn so far, the last one being the figure being drawn.
    pub fn figures(&self) -> (figs: &Vec<Vec<CanvasPoint>>)
        ensures
            figs@.map_values(|f: Vec<CanvasPoint>| f@) == self@.figures,
    {
        &self.srodowisko
    }

    /// What a click on the canvas does.
    pub fn mode(&self) -> (m: DrawMode)
        ensures
            m == self@.mode,
    {
        self.my_enum
    }

    /// The start point of the route.
    pub fn start(&self) -> (p: CanvasPoint)
        ensures
            p == self@.start,
    {
        self.individual_start
    }

    /// The end point of the route.
    pub fn end(&self) -> (p: CanvasPoint)
        ensures
            p == self@.end,
    {
        self.individual_end
    }

    /// The position of the next moving obstacle.
    pub fn obstacle_pos(&self) -> (p: CanvasPoint)
        ensures
            p == self@.obstacle,
    {
        self.obstacle_pos
    }

    /// Chooses what a click on the canvas does.
    pub fn set_mode(&mut self, mode: DrawMode)
        ensures
            final(self)@ == (PaintingModel { mode, ..old(self)@ }),
    {
        self.my_enum = mode;
    }

    /// Moves the start point of the route.
    pub fn set_start(&mut self, p: CanvasPoint)
        ensures
            final(self)@ == (PaintingModel { start: p, ..old(self)@ }),
    {
        self.individual_start = p;
    }

    /// Moves the end point of the route.
    pub fn set_end(&mut self, p: CanvasPoint)
        ensures
            final(self)@ == (PaintingModel { end: p, ..old(self)@ }),
    {
        self.individual_end = p;
    }

    /// Moves the position of the next moving obstacle.
    pub fn set_obstacle_pos(&mut self, p: CanvasPoint)
        ensures
            final(self)@ == (PaintingModel { obstacle: p, ..old(self)@ }),
    {
        self.obstacle_pos = p;
    }

    fn push_to_last(&mut self, p: CanvasPoint) -> (added: bool)
        requires
            old(self)@.figures.len() > 0,
        ensures
            added == adds_point(old(self)@.figures, p),
            final(self)@ == (PaintingModel {
                figures: with_point(old(self)@.figures, p),
                ..old(self)@
            }),
    {
        let ghost before = self@;
        let mut line = self.srodowisko.pop().unwrap();
        let n = line.len();
        let added = n == 0 || !points_equal(line[n - 1], p);
        if added {
            line.push(p);
        }
        self.srodowisko.push(line);
        assert(self@.figures =~= with_point(before.figures, p));
        added
    }

    fn close_last(&mut self)
        requires
            old(self)@.figures.len() > 0,
        ensures
            final(self)@ == (PaintingModel {
                figures: with_figure_closed(old(self)@.figures),
                ..old(self)@
            }),
    {
        let ghost before = self@;
        let mut line = self.srodowisko.pop().unwrap();
        if line.len() > 0 {
            let first = line[0];
            line.push(first);
            self.srodowisko.push(line);
            self.srodowisko.push(Vec::new());
            assert(self@.figures =~= with_figure_closed(before.figures));
        } else {
            self.srodowisko.push(line);
            assert(self@.figures =~= with_figure_closed(before.figures));
        }
    }

    /// Handles one frame of input on the canvas: `primary` is where the primary
    /// button was clicked (`None`: it was not), `secondary` whether the
    /// secondary button was. An empty figure is opened first if there is none.
    /// Returns whether a point was added to the figure being drawn.
    pub fn handle_input(&mut self, primary: Option<CanvasPoint>, secondary: bool) -> (changed: bool)
        ensures
            final(self)@ == after_input(old(self)@, primary, secondary),
            figures_wf(old(self)@.figures) ==> figures_wf(final(self)@.figures),
            changed == (old(self)@.mode == DrawMode::Stat && primary is Some && adds_point(
                opened(old(self)@.figures),
                primary->0,
            )),
            changed == (old(self)@.mode == DrawMode::Stat && primary is Some && (old(
                self,
            )@.figures.len() == 0 || old(self)@.figures.last().len() == 0 || !same_point(
                old(self)@.figures.last().last(),
                primary->0,
            ))),
    {
        let ghost before = self@;
        if self.srodowisko.len() == 0 {
            self.srodowisko.push(Vec::new());
            assert(self@.figures =~= opened(before.figures));
        }
        let mut changed = false;
        match self.my_enum {
            DrawMode::Start => {
                if let Some(p) = primary {
                    self.individual_start = p;
                }
            },
            DrawMode::End => {
                if let Some(p) = primary {
                    self.individual_end = p;
                }
            },
            DrawMode::Dym => {
                if let Some(p) = primary {
                    self.obstacle_pos = p;
                }
            },
            DrawMode::Stat => {
                if let Some(p) = primary {
                    changed = self.push_to_last(p);
                }
                if secondary {
                    self.close_last();
                }
            },
        }
        proof {
            if figures_wf(before.figures) {
                lemma_input_keeps_figures(before, primary, secondary);
            }
        }
        changed
    }
}

proof fn lemma_with_point_wf(figs: Seq<Seq<CanvasPoint>>, p: CanvasPoint)
    requires
        figs.len() > 0,
    ensures
        figures_wf(figs) ==> figures_wf(with_point(figs, p)),
        with_point(figs, p).len() == figs.len(),
        forall|i: int| 0 <= i < figs.len() - 1 ==> #[trigger] with_point(figs, p)[i] == figs[i],
{
    let r = with_point(figs, p);
    if adds_point(figs, p) && figures_wf(figs) {
        let f = figs.last().push(p);
        assert(r.last() == f);
        assert forall|j: int| 0 < j < f.len() implies !same_point(#[trigger] f[j], f[j - 1]) by {
            if j < f.len() - 1 {
                assert(f[j] == figs.last()[j]);
                assert(f[j - 1] == figs.last()[j - 1]);
            }
        }
        assert forall|i: int| 0 <= i < r.len() - 1 implies #[trigger] is_closed_figure(r[i]) by {
            assert(r[i] == figs[i]);
        }
    }
}

proof fn lemma_with_figure_closed_wf(figs: Seq<Seq<CanvasPoint>>)
    requires
        figs.len() > 0,
    ensures
        figures_wf(figs) ==> figures_wf(with_figure_closed(figs)),
        with_figure_closed(figs).len() >= figs.len(),
        forall|i: int| 0 <= i < figs.len() - 1 ==> #[trigger] with_figure_closed(figs)[i] == figs[i],
{
    let r = with_figure_closed(figs);
    if figs.last().len() > 0 && figures_wf(figs) {
        let f = figs.last().push(figs.last()[0]);
        assert(f.drop_last() =~= figs.last());
        assert(is_closed_figure(f));
        assert(r[figs.len() - 1] == f);
        assert forall|i: int| 0 <= i < r.len() - 1 implies #[trigger] is_closed_figure(r[i]) by {
            if i < figs.len() - 1 {
                assert(r[i] == figs[i]);
            }
        }
        assert(r.last() =~= Seq::<CanvasPoint>::empty());
    }
}

/// Input never changes a finished figure and never removes a figure, and it
/// keeps the figures well formed: all figures but the last are closed, and no
/// figure has two neighbouring points that compare equal.
pub proof fn lemma_input_keeps_figures(
    m: PaintingModel,
    primary: Option<CanvasPoint>,
    secondary: bool,
)
    ensures
        figures_wf(m.figures) ==> figures_wf(after_input(m, primary, secondary).figures),
        after_input(m, primary, secondary).figures.len() >= m.figures.len(),
        forall|i: int|
            0 <= i < m.figures.len() - 1 ==> #[trigger] after_input(m, primary, secondary).figures[i]
                == m.figures[i],
{
    let f1 = opened(m.figures);
    if m.mode == DrawMode::Stat {
        let f2 = match primary {
            Some(p) => with_point(f1, p),
            None => f1,
        };
        if let Some(p) = primary {
            lemma_with_point_wf(f1, p);
        }
        if secondary {
            lemma_with_figure_closed_wf(f2);
        }
    }
}

/// Outside the drawing mode a click moves only the point of its mode and never
/// touches the figures; in the drawing mode the start point, the end point and
/// the obstacle position stay where they are.
pub proof fn lemma_modes_are_separate(
    m: PaintingModel,
    primary: Option<CanvasPoint>,
    secondary: bool,
)
    ensures
        m.mode != DrawMode::Stat ==> after_input(m, primary, secondary).figures == opened(
            m.figures,
        ),
        m.mode == DrawMode::Stat ==> after_input(m, primary, secondary).start == m.start
            && after_input(m, primary, secondary).end == m.end && after_input(
            m,
            primary,
            secondary,
        ).obstacle == m.obstacle,
        after_input(m, primary, secondary).mode == m.mode,
{
}

/// A secondary click in the drawing mode on a figure that has points finishes
/// it: the figure ends with its first point and a new, empty figure is opened.
pub proof fn lemma_secondary_click_closes_figure(m: PaintingModel, primary: Option<CanvasPoint>)
    requires
        m.mode == DrawMode::Stat,
        (match primary {
            Some(p) => with_point(opened(m.figures), p),
            None => opened(m.figures),
        }).last().len() > 0,
    ensures
        ({
            let r = after_input(m, primary, true).figures;
            let f2 = match primary {
                Some(p) => with_point(opened(m.figures), p),
                None => opened(m.figures),
            };
            &&& r.len() == f2.len() + 1
            &&& r[r.len() - 2] == f2.last().push(f2.last()[0])
            &&& r.last().len() == 0
        }),
{
}

/// A click in the mode of a point puts that point exactly where the click was;
/// a click in any other mode, or no click, leaves it where it was.
pub proof fn lemma_click_places_point_of_its_mode(
    m: PaintingModel,
    primary: Option<CanvasPoint>,
    secondary: bool,
)
    ensures
        ({
            let r = after_input(m, primary, secondary);
            &&& (m.mode == DrawMode::Start && primary == Some(r.start)) || (r.start == m.start && !(
            m.mode == DrawMode::Start && primary is Some))
            &&& (m.mode == DrawMode::End && primary == Some(r.end)) || (r.end == m.end && !(m.mode
                == DrawMode::End && primary is Some))
            &&& (m.mode == DrawMode::Dym && primary == Some(r.obstacle)) || (r.obstacle == m.obstacle
                && !(m.mode == DrawMode::Dym && primary is Some))
            &&& r.mode == m.mode
        }),
        forall|p: CanvasPoint|
            m.mode == DrawMode::Start ==> #[trigger] after_input(m, Some(p), secondary).start == p,
        forall|p: CanvasPoint|
            m.mode == DrawMode::End ==> #[trigger] after_input(m, Some(p), secondary).end == p,
        forall|p: CanvasPoint|
            m.mode == DrawMode::Dym ==> #[trigger] after_input(m, Some(p), secondary).obstacle == p,
        m.mode != DrawMode::Start ==> after_input(m, primary, secondary).start == m.start,
        m.mode != DrawMode::End ==> after_input(m, primary, secondary).end == m.end,
        m.mode != DrawMode::Dym ==> after_input(m, primary, secondary).obstacle == m.obstacle,
{
}

/// In the drawing mode a primary click appends exactly the clicked point to the
/// figure being drawn, however many points it has, unless the figure's last
/// point compares equal to it; then nothing changes. Every other figure stays.
pub proof fn lemma_primary_click_appends(m: PaintingModel, p: CanvasPoint)
    requires
        m.mode == DrawMode::Stat,
    ensures
        ({
            let before = if m.figures.len() == 0 {
                seq![Seq::<CanvasPoint>::empty()]
            } else {
                m.figures
            };
            let r = after_input(m, Some(p), false).figures;
            let fresh = before.last().len() == 0 || !same_point(before.last().last(), p);
            &&& r.len() == before.len()
            &&& forall|i: int| 0 <= i < before.len() - 1 ==> #[trigger] r[i] == before[i]
            &&& fresh ==> r.last() == before.last().push(p)
            &&& fresh ==> r.last().len() == before.last().len() + 1 && r.last().last() == p
            &&& !fresh ==> r == before
        }),
{
}

/// A secondary click alone in the drawing mode closes the figure being drawn,
/// if it has points, by repeating its first point, and opens a new empty
/// figure after it; an empty figure is left as it is.
pub proof fn lemma_secondary_click_alone(m: PaintingModel)
    requires
        m.mode == DrawMode::Stat,
    ensures
        ({
            let before = if m.figures.len() == 0 {
                seq![Seq::<CanvasPoint>::empty()]
            } else {
                m.figures
            };
            let r = after_input(m, None, true).figures;
            let cur = before.last();
            &&& cur.len() == 0 ==> r == before
            &&& cur.len() > 0 ==> r.len() == before.len() + 1 && r.last().len() == 0 && r[before.len()
                - 1].len() == cur.len() + 1 && r[before.len() - 1].take(cur.len() as int) == cur
                && r[before.len() - 1].last() == cur[0] && forall|i: int|
                0 <= i < before.len() - 1 ==> #[trigger] r[i] == before[i]
        }),
{
    let before = if m.figures.len() == 0 {
        seq![Seq::<CanvasPoint>::empty()]
    } else {
        m.figures
    };
    let cur = before.last();
    if cur.len() > 0 {
        let r = after_input(m, None, true).figures;
        assert(r[before.len() - 1] == cur.push(cur[0]));
        assert(cur.push(cur[0]).take(cur.len() as int) =~= cur);
    }
}

/// A frame with no click leaves the figures as they are, apart from opening an
/// empty figure on an empty canvas.
pub proof fn lemma_no_click_changes_nothing(m: PaintingModel)
    ensures
        m.figures.len() > 0 ==> after_input(m, None, false) == m,
        m.figures.len() == 0 ==> after_input(m, None, false).figures == seq![
            Seq::<CanvasPoint>::empty(),
        ],
{
}

} // verus!
