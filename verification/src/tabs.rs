//! The top bar: which of the three views are on screen.
//!
//! Each frame the bar walks its labels in order. A clicked label becomes the
//! selected one and its view is switched on; a label that differs from the
//! selection at the moment it is visited has its view switched off. Because the
//! walk is in order, a label visited before the newly clicked one is switched
//! off only on the next frame.
use vstd::prelude::*;

verus! {

/// One of the views of the application, in the order the top bar lists them.
#[derive(Clone, Copy, Debug, PartialEq, Eq, Structural)]
pub enum Tab {
    /// The drawing canvas ("Rysowanie").
    Rysowanie,
    /// The generation browser ("wizualizacja").
    Wizualizacja,
    /// The single-individual browser ("wizualizacja dynamiczna").
    WizualizacjaDynamiczna,
}

impl Tab {
    /// Place of the label in the top bar, counted from the left.
    pub open spec fn position(self) -> int {
        match self {
            Tab::Rysowanie => 0,
            Tab::Wizualizacja => 1,
            Tab::WizualizacjaDynamiczna => 2,
        }
    }

    /// The text of the label.
    pub fn label(&self) -> (s: &'static str)
        ensures
            *self == Tab::Rysowanie ==> s@ == "Rysowanie"@,
            *self == Tab::Wizualizacja ==> s@ == "wizualizacja"@,
            *self == Tab::WizualizacjaDynamiczna ==> s@ == "wizualizacja dynamiczna"@,
    {
        match self {
            Tab::Rysowanie => "Rysowanie",
            Tab::Wizualizacja => "wizualizacja",
            Tab::WizualizacjaDynamiczna => "wizualizacja dynamiczna",
        }
    }
}

/// Whether the view of `t` is on after a frame in which `clicked` was clicked,
/// starting from a state whose selection is `selected` and in which the view of
/// `t` was `was_shown`.
pub open spec fn next_shown(selected: Tab, was_shown: bool, clicked: Option<Tab>, t: Tab) -> bool {
    if clicked == Some(t) {
        true
    } else if clicked matches Some(c) && c.position() < t.position() {
        false
    } else if selected != t {
        false
    } else {
        was_shown
    }
}

/// The selection after a frame in which `clicked` was clicked.
pub open spec fn next_selected(selected: Tab, clicked: Option<Tab>) -> Tab {
    match clicked {
        Some(c) => c,
        None => selected,
    }
}

/// The state of the top bar: the selected label and, for each view, whether it is on.
pub struct State {
    rysowanie: bool,
    pokolenia: bool,
    tri: bool,
    selected_anchor: Tab,
}

impl State {
    /// Whether the view of `t` is on.
    pub closed spec fn shown(self, t: Tab) -> bool {
        match t {
            Tab::Rysowanie => self.rysowanie,
            Tab::Wizualizacja => self.pokolenia,
            Tab::WizualizacjaDynamiczna => self.tri,
        }
    }

    /// The selected label.
    pub closed spec fn selected(self) -> Tab {
        self.selected_anchor
    }

    /// The selected view is on. Every state that the bar reaches from its start
    /// has this property.
    pub open spec fn wf(self) -> bool {
        self.shown(self.selected())
    }

    /// The state after a frame in which `clicked` was clicked (`None`: no label was).
    pub closed spec fn after_click(self, clicked: Option<Tab>) -> State {
        State {
            rysowanie: next_shown(self.selected_anchor, self.rysowanie, clicked, Tab::Rysowanie),
            pokolenia: next_shown(self.selected_anchor, self.pokolenia, clicked, Tab::Wizualizacja),
            tri: next_shown(self.selected_anchor, self.tri, clicked, Tab::WizualizacjaDynamiczna),
            selected_anchor: next_selected(self.selected_anchor, clicked),
        }
    }

    /// The start state: the drawing view is selected and is the only one on.
    pub fn new() -> (s: State)
        ensures
            s.selected() == Tab::Rysowanie,
            forall|t: Tab| #[trigger] s.shown(t) == (t == Tab::Rysowanie),
            s.wf(),
    {
        State { rysowanie: true, pokolenia: false, tri: false, selected_anchor: Tab::Rysowanie }
    }

    /// Whether the view of `tab` is on.
    pub fn is_shown(&self, tab: Tab) -> (b: bool)
        ensures
            b == self.shown(tab),
    {
        match tab {
            Tab::Rysowanie => self.rysowanie,
            Tab::Wizualizacja => self.pokolenia,
            Tab::WizualizacjaDynamiczna => self.tri,
        }
    }

    /// The selected label.
    pub fn selected_anchor(&self) -> (t: Tab)
        ensures
            t == self.selected(),
    {
        self.selected_anchor
    }

    /// Whether the label of `tab` is drawn as selected while the bar is walked,
    /// `clicked_before` being the label clicked earlier in the walk, if any.
    pub fn highlighted(&self, clicked_before: Option<Tab>, tab: Tab) -> (b: bool)
        ensures
            b == (next_selected(self.selected(), clicked_before) == tab),
    {
        match clicked_before {
            Some(c) => c == tab,
            None => self.selected_anchor == tab,
        }
    }

    fn set_shown(&mut self, tab: Tab, on: bool)
        ensures
            final(self).selected() == old(self).selected(),
            final(self).shown(tab) == on,
            forall|t: Tab| t != tab ==> #[trigger] final(self).shown(t) == old(self).shown(t),
    {
        match tab {
            Tab::Rysowanie => self.rysowanie = on,
            Tab::Wizualizacja => self.pokolenia = on,
            Tab::WizualizacjaDynamiczna => self.tri = on,
        }
    }

    /// One label of the walk: a click on it selects it and turns its view on;
    /// if the selection then differs from it, its view is turned off.
    fn visit(&mut self, selected: &mut Tab, tab: Tab, clicked: Option<Tab>)
        ensures
            *final(selected) == (if clicked == Some(tab) { tab } else { *old(selected) }),
            final(self).selected() == old(self).selected(),
            final(self).shown(tab) == (if clicked == Some(tab) {
                true
            } else if *old(selected) != tab {
                false
            } else {
                old(self).shown(tab)
            }),
            forall|t: Tab| t != tab ==> #[trigger] final(self).shown(t) == old(self).shown(t),
    {
        let is_clicked = match clicked {
            Some(c) => c == tab,
            None => false,
        };
        if is_clicked {
            *selected = tab;
            self.set_shown(tab, true);
        }
        if *selected != tab {
            self.set_shown(tab, false);
        }
    }

    /// Runs the top bar for one frame in which `clicked` was clicked (`None`
    /// when no label was): the labels are walked from left to right.
    pub fn select(&mut self, clicked: Option<Tab>)
        ensures
            *final(self) == old(self).after_click(clicked),
            old(self).wf() ==> final(self).wf(),
            final(self).selected() == next_selected(old(self).selected(), clicked),
            forall|t: Tab|
                #[trigger] final(self).shown(t) == next_shown(
                    old(self).selected(),
                    old(self).shown(t),
                    clicked,
                    t,
                ),
    {
        let ghost start = *self;
        let mut selected = self.selected_anchor;
        self.visit(&mut selected, Tab::Rysowanie, clicked);
        let ghost s1 = *self;
        self.visit(&mut selected, Tab::Wizualizacja, clicked);
        let ghost s2 = *self;
        self.visit(&mut selected, Tab::WizualizacjaDynamiczna, clicked);
        let ghost s3 = *self;
        self.selected_anchor = selected;
        assert(s3.shown(Tab::Rysowanie) == s2.shown(Tab::Rysowanie));
        assert(s2.shown(Tab::Rysowanie) == s1.shown(Tab::Rysowanie));
        assert(s1.shown(Tab::Rysowanie) == start.after_click(clicked).shown(Tab::Rysowanie));
        assert(s3.shown(Tab::Wizualizacja) == s2.shown(Tab::Wizualizacja));
        assert(s2.shown(Tab::Wizualizacja) == start.after_click(clicked).shown(Tab::Wizualizacja));
        assert(s3.shown(Tab::WizualizacjaDynamiczna) == start.after_click(clicked).shown(
            Tab::WizualizacjaDynamiczna,
        ));
    }
}

/// Clicking a label selects it and turns its view on.
pub proof fn lemma_click_shows_view(s: State, c: Tab)
    ensures
        s.after_click(Some(c)).selected() == c,
        s.after_click(Some(c)).shown(c),
{
}

/// The selected view stays on through every frame.
pub proof fn lemma_selected_view_stays_on(s: State, clicked: Option<Tab>)
    requires
        s.wf(),
    ensures
        s.after_click(clicked).wf(),
{
}

/// After a click, no view is on but the clicked one and the one selected before.
pub proof fn lemma_click_shows_at_most_two(s: State, c: Tab, t: Tab)
    ensures
        s.after_click(Some(c)).shown(t) ==> t == c || t == s.selected(),
{
}

/// After a frame without a click, the selection is unchanged and exactly the
/// selected view is on.
pub proof fn lemma_quiet_frame_settles(s: State)
    requires
        s.wf(),
    ensures
        s.after_click(None).selected() == s.selected(),
        forall|t: Tab| #[trigger] s.after_click(None).shown(t) == (t == s.selected()),
{
}

/// A state in which exactly the selected view is on is left as it is by a frame
/// without a click and by a click on the selected label.
pub proof fn lemma_settled_state_is_stable(s: State)
    requires
        forall|t: Tab| #[trigger] s.shown(t) == (t == s.selected()),
    ensures
        s.after_click(None) == s,
        s.after_click(Some(s.selected())) == s,
{
    assert(s.shown(Tab::Rysowanie) == (Tab::Rysowanie == s.selected()));
    assert(s.shown(Tab::Wizualizacja) == (Tab::Wizualizacja == s.selected()));
    assert(s.shown(Tab::WizualizacjaDynamiczna) == (Tab::WizualizacjaDynamiczna == s.selected()));
}

/// The bar is walked from left to right. After a click on `c`, every view to
/// the right of `c` is off, and every view to the left of `c` stays on only if
/// it was the selected view and was on. With no click, only the selected view
/// can stay on, and only if it was on.
pub proof fn lemma_walk_left_to_right(s: State, t: Tab)
    ensures
        forall|c: Tab|
            t.position() > c.position() ==> !#[trigger] s.after_click(Some(c)).shown(t),
        forall|c: Tab|
            t.position() < c.position() ==> #[trigger] s.after_click(Some(c)).shown(t) == (
            s.selected() == t && s.shown(t)),
        s.after_click(None).shown(t) == (s.selected() == t && s.shown(t)),
        forall|c: Tab| #[trigger] s.after_click(Some(c)).selected() == c,
        s.after_click(None).selected() == s.selected(),
{
}

/// From a settled state (only the selected view on), a click on another label
/// `c` turns its view on and keeps the previously selected view on exactly when
/// `c` lies to its right; all other views are off.
pub proof fn lemma_click_from_settled_state(s: State, c: Tab)
    requires
        forall|t: Tab| #[trigger] s.shown(t) == (t == s.selected()),
        c != s.selected(),
    ensures
        s.after_click(Some(c)).shown(c),
        s.after_click(Some(c)).shown(s.selected()) == (c.position() > s.selected().position()),
        forall|t: Tab|
            t != c && t != s.selected() ==> !#[trigger] s.after_click(Some(c)).shown(t),
{
    assert(s.shown(s.selected()));
}

} // verus!
