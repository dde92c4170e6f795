use epn_gui::browse::{generation_range, shown_generation, Visualize, Visualizedynamic};

#[test]
fn generation_slider_only_beyond_two_generations() {
    assert_eq!(generation_range(0), None);
    assert_eq!(generation_range(2), None);
    assert_eq!(generation_range(3), Some((0, 2)));
    assert_eq!(generation_range(50), Some((0, 49)));
}

#[test]
fn generation_shown_only_when_loaded() {
    assert_eq!(shown_generation(0, 0), None);
    assert_eq!(shown_generation(4, 5), Some(4));
}

#[test]
fn generation_browser_defaults() {
    let v = Visualize::new();
    assert_eq!((v.pokolenie(), v.individual_start(), v.individual_end()), (0, 1, 1));
    assert_eq!(v.start_range(), (1, 1));
    assert_eq!(v.end_range(20), (1, 19));
    assert_eq!(v.shown_individuals(10), vec![1]);
}

#[test]
fn generation_browser_shows_run_between_ends() {
    let mut v = Visualize::new();
    v.set_individual_end(5);
    v.set_individual_start(2);
    assert_eq!(v.start_range(), (1, 5));
    assert_eq!(v.end_range(10), (2, 9));
    assert_eq!(v.shown_individuals(10), vec![2, 3, 4, 5]);
}

#[test]
fn generation_browser_end_before_start_counts_forward() {
    let mut v = Visualize::new();
    v.set_individual_start(5);
    v.set_individual_end(2);
    assert_eq!(v.shown_individuals(20), vec![5, 6, 7, 8]);
}

#[test]
fn generation_browser_cut_at_population_end() {
    let mut v = Visualize::new();
    v.set_individual_start(8);
    v.set_individual_end(12);
    assert_eq!(v.shown_individuals(10), vec![8, 9]);
    v.set_individual_start(10);
    assert_eq!(v.shown_individuals(10), Vec::<usize>::new());
    v.set_pokolenie(3);
    assert_eq!(v.pokolenie(), 3);
}

#[test]
fn dynamic_browser_defaults_and_paths() {
    let v = Visualizedynamic::new();
    assert_eq!(v.file_statistics(), "simulation_statistics");
    assert_eq!(v.file_srodowisko(), "env");
    assert_eq!(v.statistics_path(), "simulation_statistics.json");
    assert_eq!(v.environment_path(), "env.json");
    assert_eq!((v.pokolenie(), v.individual(), v.point(), v.percent_of_path()), (0, 1, 1, 0));
}

#[test]
fn dynamic_browser_renamed_files() {
    let mut v = Visualizedynamic::new();
    v.set_file_statistics(String::from("run7"));
    v.set_file_srodowisko(String::from("maps/harbour"));
    assert_eq!(v.statistics_path(), "run7.json");
    assert_eq!(v.environment_path(), "maps/harbour.json");
}

#[test]
fn dynamic_browser_shows_one_individual() {
    let mut v = Visualizedynamic::new();
    assert_eq!(v.shown_individuals(5), vec![1]);
    v.set_individual(4);
    assert_eq!(v.shown_individuals(5), vec![4]);
    assert_eq!(v.shown_individuals(4), Vec::<usize>::new());
    let mut g = Visualize::new();
    g.set_individual_start(4);
    g.set_individual_end(4);
    assert_eq!(g.shown_individuals(5), v.shown_individuals(5));
}

#[test]
fn dynamic_browser_slider_ranges() {
    assert_eq!(Visualizedynamic::individual_range(30), (1, 29));
    assert_eq!(Visualizedynamic::point_range(12), (1, 12));
    assert_eq!(Visualizedynamic::percent_range(), (0, 100));
    let mut v = Visualizedynamic::new();
    v.set_point(7);
    v.set_percent_of_path(40);
    v.set_pokolenie(2);
    assert_eq!((v.pokolenie(), v.individual(), v.point(), v.percent_of_path()), (2, 1, 7, 40));
}
