//! The two browsers of saved simulation runs. The generation browser shows a
//! run of consecutive individuals of one generation; the single-individual
//! browser shows one individual. Both read their data from JSON files and let
//! the user pick what to show with sliders, whose ranges are computed here.
use vstd::prelude::*;
use vstd::string::*;

verus! {

/// The indices `from`, `from + 1`, ... of at most `count` items of a list of
/// `len` items: what `skip(from).take(count)` leaves of it.
pub open spec fn index_run(from: nat, count: nat, len: nat) -> Seq<usize> {
    let end = if from + count <= len { from + count } else { len };
    if from >= end {
        Seq::empty()
    } else {
        Seq::new((end - from) as nat, |k: int| (from + k) as usize)
    }
}

/// The distance between `a` and `b`.
pub open spec fn distance(a: nat, b: nat) -> nat {
    if a >= b {
        (a - b) as nat
    } else {
        (b - a) as nat
    }
}

/// The indices `from .. min(from + count, len)`, in order.
fn index_run_vec(from: usize, count: usize, len: usize) -> (v: Vec<usize>)
    ensures
        v@ == index_run(from as nat, count as nat, len as nat),
{
    let end: usize = if count <= len && from <= len - count {
        from + count
    } else {
        len
    };
    let mut v: Vec<usize> = Vec::new();
    let mut i: usize = from;
    while i < end
        invariant
            i <= end || i == from,
            i >= from,
            end <= len,
            end as nat == (if from + count <= len { from + count } else { len as int }),
            v@ =~= Seq::new((i - from) as nat, |k: int| (from + k) as usize),
        decreases end - i,
    {
        v.push(i);
        i = i + 1;
    }
    if from >= end {
        assert(v@ =~= Seq::<usize>::empty());
    }
    v
}

/// The range of the generation slider, shown only when there are more than
/// two generations: from the first generation to the last one.
pub fn generation_range(generations: usize) -> (r: Option<(usize, usize)>)
    ensures
        r == (if generations > 2 {
            Some((0usize, (generations - 1) as usize))
        } else {
            None
        }),
{
    if generations > 2 {
        Some((0, generations - 1))
    } else {
        None
    }
}

/// The generation whose individuals a browser draws, out of `generations`
/// loaded ones: none when nothing is loaded, else the chosen `generation`.
pub fn shown_generation(generation: usize, generations: usize) -> (g: Option<usize>)
    requires
        generations == 0 || generation < generations,
    ensures
        g == (if generations == 0 {
            None
        } else {
            Some(generation)
        }),
{
    if generations == 0 {
        None
    } else {
        Some(generation)
    }
}

/// What the generation browser shows.
pub struct Visualize {
    pokolenie: usize,
    individual_start: usize,
    individual_end: usize,
}

impl Visualize {
    /// The generation shown.
    pub closed spec fn generation(self) -> nat {
        self.pokolenie as nat
    }

    /// The first individual shown.
    pub closed spec fn first(self) -> nat {
        self.individual_start as nat
    }

    /// The other end of the run of individuals shown.
    pub closed spec fn last(self) -> nat {
        self.individual_end as nat
    }

    /// Generation 0, individuals from 1 to 1.
    pub fn new() -> (v: Visualize)
        ensures
            v.generation() == 0,
            v.first() == 1,
            v.last() == 1,
    {
        Visualize { pokolenie: 0, individual_start: 1, individual_end: 1 }
    }

    /// The generation shown.
    pub fn pokolenie(&self) -> (g: usize)
        ensures
            g == self.generation(),
    {
        self.pokolenie
    }

    /// The first individual shown.
    pub fn individual_start(&self) -> (i: usize)
        ensures
            i == self.first(),
    {
        self.individual_start
    }

    /// The other end of the run of individuals shown.
    pub fn individual_end(&self) -> (i: usize)
        ensures
            i == self.last(),
    {
        self.individual_end
    }

    /// Sets the generation shown.
    pub fn set_pokolenie(&mut self, g: usize)
        ensures
            final(self).generation() == g,
            final(self).first() == old(self).first(),
            final(self).last() == old(self).last(),
    {
        self.pokolenie = g;
    }

    /// Sets the first individual shown.
    pub fn set_individual_start(&mut self, i: usize)
        ensures
            final(self).generation() == old(self).generation(),
            final(self).first() == i,
            final(self).last() == old(self).last(),
    {
        self.individual_start = i;
    }

    /// Sets the other end of the run of individuals shown.
    pub fn set_individual_end(&mut self, i: usize)
        ensures
            final(self).generation() == old(self).generation(),
            final(self).first() == old(self).first(),
            final(self).last() == i,
    {
        self.individual_end = i;
    }

    /// The range of the slider of the first individual: from 1 to the other end.
    pub fn start_range(&self) -> (r: (usize, usize))
        ensures
            r.0 == 1,
            r.1 == self.last(),
    {
        (1, self.individual_end)
    }

    /// The range of the slider of the other end: from the first individual to
    /// the last individual of a population of `population_len` individuals.
    pub fn end_range(&self, population_len: usize) -> (r: (usize, usize))
        requires
            population_len >= 1,
        ensures
            r.0 == self.first(),
            r.1 == population_len - 1,
    {
        (self.individual_start, population_len - 1)
    }

    /// The indices of the individuals shown, out of a population of
    /// `population_len`: the first one and as many after it as its distance
    /// to the other end.
    pub fn shown_individuals(&self, population_len: usize) -> (v: Vec<usize>)
        requires
            distance(self.first(), self.last()) + 1 <= usize::MAX,
        ensures
            v@ == index_run(
                self.first(),
                distance(self.first(), self.last()) + 1,
                population_len as nat,
            ),
    {
        let diff = if self.individual_end >= self.individual_start {
            self.individual_end - self.individual_start
        } else {
            self.individual_start - self.individual_end
        };
        index_run_vec(self.individual_start, diff + 1, population_len)
    }
}

/// What the single-individual browser shows, and the names of the files it reads.
pub struct Visualizedynamic {
    file_statistics: String,
    file_srodowisko: String,
    pokolenie: usize,
    individual: usize,
    percent_of_path: usize,
    point: usize,
}

impl Visualizedynamic {
    /// The name, without extension, of the file of generation statistics.
    pub closed spec fn statistics_name(self) -> Seq<char> {
        self.file_statistics@
    }

    /// The name, without extension, of the file of the environment.
    pub closed spec fn environment_name(self) -> Seq<char> {
        self.file_srodowisko@
    }

    /// The generation shown.
    pub closed spec fn generation(self) -> nat {
        self.pokolenie as nat
    }

    /// The individual shown.
    pub closed spec fn chosen(self) -> nat {
        self.individual as nat
    }

    /// The point of the individual chosen on its slider.
    pub closed spec fn chosen_point(self) -> nat {
        self.point as nat
    }

    /// The progress along the path chosen on its slider, in percent.
    pub closed spec fn progress(self) -> nat {
        self.percent_of_path as nat
    }

    /// Files "simulation_statistics" and "env", generation 0, individual 1,
    /// point 1, progress 0.
    pub fn new() -> (v: Visualizedynamic)
        ensures
            v.statistics_name() == "simulation_statistics"@,
            v.environment_name() == "env"@,
            v.generation() == 0,
            v.chosen() == 1,
            v.chosen_point() == 1,
            v.progress() == 0,
    {
        Visualizedynamic {
            file_statistics: String::from_str("simulation_statistics"),
            file_srodowisko: String::from_str("env"),
            individual: 1,
            point: 1,
            pokolenie: 0,
            percent_of_path: 0,
        }
    }

    /// The name of the file of generation statistics, without extension.
    pub fn file_statistics(&self) -> (s: &String)
        ensures
            s@ == self.statistics_name(),
    {
        &self.file_statistics
    }

    /// The name of the file of the environment, without extension.
    pub fn file_srodowisko(&self) -> (s: &String)
        ensures
            s@ == self.environment_name(),
    {
        &self.file_srodowisko
    }

    /// Renames the file of generation statistics.
    pub fn set_file_statistics(&mut self, name: String)
        ensures
            final(self).statistics_name() == name@,
            final(self).environment_name() == old(self).environment_name(),
            final(self).generation() == old(self).generation(),
            final(self).chosen() == old(self).chosen(),
            final(self).chosen_point() == old(self).chosen_point(),
            final(self).progress() == old(self).progress(),
    {
        self.file_statistics = name;
    }

    /// Renames the file of the environment.
    pub fn set_file_srodowisko(&mut self, name: String)
        ensures
            final(self).statistics_name() == old(self).statistics_name(),
            final(self).environment_name() == name@,
            final(self).generation() == old(self).generation(),
            final(self).chosen() == old(self).chosen(),
            final(self).chosen_point() == old(self).chosen_point(),
            final(self).progress() == old(self).progress(),
    {
        self.file_srodowisko = name;
    }

    /// The path of the file of generation statistics: its name and ".json".
    pub fn statistics_path(&self) -> (p: String)
        ensures
            p@ == self.statistics_name() + ".json"@,
    {
        self.file_statistics.clone().concat(".json")
    }

    /// The path of the file of the environment: its name and ".json".
    pub fn environment_path(&self) -> (p: String)
        ensures
            p@ == self.environment_name() + ".json"@,
    {
        self.file_srodowisko.clone().concat(".json")
    }

    /// The generation shown.
    pub fn pokolenie(&self) -> (g: usize)
        ensures
            g == self.generation(),
    {
        self.pokolenie
    }

    /// The individual shown.
    pub fn individual(&self) -> (i: usize)
        ensures
            i == self.chosen(),
    {
        self.individual
    }

    /// The point chosen on its slider.
    pub fn point(&self) -> (i: usize)
        ensures
            i == self.chosen_point(),
    {
        self.point
    }

    /// The progress chosen on its slider, in percent.
    pub fn percent_of_path(&self) -> (i: usize)
        ensures
            i == self.progress(),
    {
        self.percent_of_path
    }

    /// Sets the generation shown.
    pub fn set_pokolenie(&mut self, g: usize)
        ensures
            final(self).generation() == g,
            final(self).chosen() == old(self).chosen(),
            final(self).chosen_point() == old(self).chosen_point(),
            final(self).progress() == old(self).progress(),
            final(self).statistics_name() == old(self).statistics_name(),
            final(self).environment_name() == old(self).environment_name(),
    {
        self.pokolenie = g;
    }

    /// Sets the individual shown.
    pub fn set_individual(&mut self, i: usize)
        ensures
            final(self).generation() == old(self).generation(),
            final(self).chosen() == i,
            final(self).chosen_point() == old(self).chosen_point(),
            final(self).progress() == old(self).progress(),
            final(self).statistics_name() == old(self).statistics_name(),
            final(self).environment_name() == old(self).environment_name(),
    {
        self.individual = i;
    }

    /// Sets the point chosen on its slider.
    pub fn set_point(&mut self, i: usize)
        ensures
            final(self).generation() == old(self).generation(),
            final(self).chosen() == old(self).chosen(),
            final(self).chosen_point() == i,
            final(self).progress() == old(self).progress(),
            final(self).statistics_name() == old(self).statistics_name(),
            final(self).environment_name() == old(self).environment_name(),
    {
        self.point = i;
    }

    /// Sets the progress chosen on its slider.
    pub fn set_percent_of_path(&mut self, i: usize)
        ensures
            final(self).generation() == old(self).generation(),
            final(self).chosen() == old(self).chosen(),
            final(self).chosen_point() == old(self).chosen_point(),
            final(self).progress() == i,
            final(self).statistics_name() == old(self).statistics_name(),
            final(self).environment_name() == old(self).environment_name(),
    {
        self.percent_of_path = i;
    }

    /// The range of the slider of the individual: from 1 to the last individual
    /// of a population of `population_len`.
    pub fn individual_range(population_len: usize) -> (r: (usize, usize))
        requires
            population_len >= 1,
        ensures
            r == (1usize, (population_len - 1) as usize),
    {
        (1, population_len - 1)
    }

    /// The range of the slider of the point: from 1 to the number of points of
    /// the individual.
    pub fn point_range(points_len: usize) -> (r: (usize, usize))
        ensures
            r == (1usize, points_len),
    {
        (1, points_len)
    }

    /// The range of the slider of the progress, in percent.
    pub fn percent_range() -> (r: (usize, usize))
        ensures
            r == (0usize, 100usize),
    {
        (0, 100)
    }

    /// The indices of the individuals shown, out of a population of
    /// `population_len`: the chosen one, if the population has it.
    pub fn shown_individuals(&self, population_len: usize) -> (v: Vec<usize>)
        ensures
            v@ == index_run(self.chosen(), 1, population_len as nat),
    {
        index_run_vec(self.individual, 1, population_len)
    }
}

/// The indices shown are consecutive, start at `from`, number at most `count`,
/// and all lie within the list.
pub proof fn lemma_index_run_in_list(from: nat, count: nat, len: nat)
    requires
        len <= usize::MAX,
    ensures
        index_run(from, count, len).len() <= count,
        forall|k: int|
            0 <= k < index_run(from, count, len).len() ==> #[trigger] index_run(from, count, len)[k]
                == from + k && index_run(from, count, len)[k] < len,
        from + count <= len ==> index_run(from, count, len).len() == count,
        index_run(from, count, len).len() == (if from >= len {
            0
        } else if from + count <= len {
            count
        } else {
            (len - from) as nat
        }),
{
}

/// The distance between two individuals does not depend on their order, is
/// zero from an individual to itself, and is `k` from `a` to `a + k`.
pub proof fn lemma_distance(a: nat, k: nat)
    ensures
        distance(a, a + k) == k,
        distance(a + k, a) == k,
        distance(a, a) == 0,
{
}

/// When the other end comes before the first individual, the generation
/// browser still counts forward from the first one: as many individuals as the
/// distance between the ends plus one, cut at the end of the population.
pub proof fn lemma_run_from_first_forward(first: nat, last: nat, len: nat)
    requires
        last < first,
        first + (first - last) < len,
        len <= usize::MAX,
    ensures
        index_run(first, distance(first, last) + 1, len) == Seq::new(
            (first - last + 1) as nat,
            |k: int| (first + k) as usize,
        ),
{
    assert(index_run(first, distance(first, last) + 1, len) =~= Seq::new(
        (first - last + 1) as nat,
        |k: int| (first + k) as usize,
    ));
}

/// When the first individual comes before the other end and both are in the
/// population, the generation browser shows exactly the individuals from the
/// first to the other end.
pub proof fn lemma_run_between_ends(first: nat, last: nat, len: nat)
    requires
        first <= last < len,
        len <= usize::MAX,
    ensures
        index_run(first, distance(first, last) + 1, len) == Seq::new(
            (last - first + 1) as nat,
            |k: int| (first + k) as usize,
        ),
{
    assert(index_run(first, distance(first, last) + 1, len) =~= Seq::new(
        (last - first + 1) as nat,
        |k: int| (first + k) as usize,
    ));
}

/// The single-individual browser shows what the generation browser shows when
/// both its ends are the chosen individual: that individual if the population
/// has it, and nothing otherwise.
pub proof fn lemma_single_individual(i: nat, len: nat)
    requires
        len <= usize::MAX,
    ensures
        index_run(i, 1, len) == index_run(i, distance(i, i) + 1, len),
        index_run(i, 1, len) == (if i < len {
            seq![i as usize]
        } else {
            Seq::<usize>::empty()
        }),
{
    if i < len {
        assert(index_run(i, 1, len) =~= seq![i as usize]);
    }
}

} // verus!
