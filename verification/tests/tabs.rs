use epn_gui::tabs::{State, Tab};

const ALL: [Tab; 3] = [Tab::Rysowanie, Tab::Wizualizacja, Tab::WizualizacjaDynamiczna];

fn shown(s: &State) -> [bool; 3] {
    [s.is_shown(ALL[0]), s.is_shown(ALL[1]), s.is_shown(ALL[2])]
}

#[test]
fn start_state_shows_drawing_only() {
    let s = State::new();
    assert_eq!(s.selected_anchor(), Tab::Rysowanie);
    assert_eq!(shown(&s), [true, false, false]);
}

#[test]
fn labels_are_the_bar_texts() {
    assert_eq!(Tab::Rysowanie.label(), "Rysowanie");
    assert_eq!(Tab::Wizualizacja.label(), "wizualizacja");
    assert_eq!(Tab::WizualizacjaDynamiczna.label(), "wizualizacja dynamiczna");
}

#[test]
fn click_on_later_tab_keeps_earlier_view_for_one_frame() {
    let mut s = State::new();
    s.select(Some(Tab::Wizualizacja));
    assert_eq!(s.selected_anchor(), Tab::Wizualizacja);
    assert_eq!(shown(&s), [true, true, false]);
    s.select(None);
    assert_eq!(s.selected_anchor(), Tab::Wizualizacja);
    assert_eq!(shown(&s), [false, true, false]);
}

#[test]
fn click_on_earlier_tab_switches_at_once() {
    let mut s = State::new();
    s.select(Some(Tab::WizualizacjaDynamiczna));
    s.select(None);
    assert_eq!(shown(&s), [false, false, true]);
    s.select(Some(Tab::Rysowanie));
    assert_eq!(s.selected_anchor(), Tab::Rysowanie);
    assert_eq!(shown(&s), [true, false, false]);
}

#[test]
fn click_shows_clicked_and_previous_only() {
    let mut s = State::new();
    s.select(Some(Tab::Wizualizacja));
    s.select(Some(Tab::WizualizacjaDynamiczna));
    // the drawing view is switched off when visited, the generation view was
    // selected before and is visited before the click
    assert_eq!(shown(&s), [false, true, true]);
    s.select(None);
    assert_eq!(shown(&s), [false, false, true]);
}

#[test]
fn settled_state_is_stable() {
    let mut s = State::new();
    s.select(None);
    assert_eq!(shown(&s), [true, false, false]);
    s.select(Some(Tab::Rysowanie));
    assert_eq!(s.selected_anchor(), Tab::Rysowanie);
    assert_eq!(shown(&s), [true, false, false]);
}

#[test]
fn highlight_follows_click_earlier_in_walk() {
    let s = State::new();
    assert!(s.highlighted(None, Tab::Rysowanie));
    assert!(!s.highlighted(None, Tab::Wizualizacja));
    assert!(s.highlighted(Some(Tab::Wizualizacja), Tab::Wizualizacja));
    assert!(!s.highlighted(Some(Tab::Wizualizacja), Tab::Rysowanie));
}
