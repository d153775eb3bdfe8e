//! Run merging: a row of cells folds into maximal runs of neighbours that
//! draw alike.

use crate::cell::{can_merge, mergeable, Color, Sugar, SugarDecoration, SugarStyle};
use vstd::prelude::*;

verus! {

/// `String::push` appends one character and leaves what was there in place.
pub assume_specification[ String::push ](s: &mut String, ch: char)
    ensures
        final(s)@ == old(s)@.push(ch),
;

/// A maximal sequence of adjacent cells that merge into one rendering unit.
#[derive(Clone, Debug, PartialEq, Eq)]
pub struct Run {
    /// Column of the run's first cell.
    pub start: usize,
    /// Number of cells in the run, at least 1.
    pub quantity: usize,
    /// The cells' contents, left to right.
    pub content: String,
    pub foreground_color: Color,
    pub background_color: Color,
    /// Style of the cell that closes the run.
    pub style: Option<SugarStyle>,
    /// Decoration of the cell that closes the run.
    pub decoration: Option<SugarDecoration>,
}

/// A run as a mathematical value.
pub struct RunView {
    pub start: nat,
    pub quantity: nat,
    pub content: Seq<char>,
    pub foreground_color: Color,
    pub background_color: Color,
    pub style: Option<SugarStyle>,
    pub decoration: Option<SugarDecoration>,
}

impl View for Run {
    type V = RunView;

    open spec fn view(&self) -> RunView {
        RunView {
            start: self.start as nat,
            quantity: self.quantity as nat,
            content: self.content@,
            foreground_color: self.foreground_color,
            background_color: self.background_color,
            style: self.style,
            decoration: self.decoration,
        }
    }
}

/// The views of a sequence of runs, in order.
pub open spec fn run_views(runs: Seq<Run>) -> Seq<RunView> {
    runs.map_values(|r: Run| r@)
}

/// The contents of some cells, left to right.
pub open spec fn cell_contents(cells: Seq<Sugar>) -> Seq<char> {
    cells.map_values(|c: Sugar| c.content)
}

/// The run of `quantity` cells that starts at column `start`. Colors, style
/// and decoration are those of its last cell.
pub open spec fn run_at(row: Seq<Sugar>, start: int, quantity: nat) -> RunView {
    let last = row[start + quantity - 1];
    RunView {
        start: start as nat,
        quantity,
        content: cell_contents(row.subrange(start, start + quantity)),
        foreground_color: last.foreground_color,
        background_color: last.background_color,
        style: last.style,
        decoration: last.decoration,
    }
}

/// The runs read from column `i` on, when the run that is open began at
/// column `start`: a run closes at each cell that does not merge with the
/// next one, and at the end of the row.
pub open spec fn runs_from(row: Seq<Sugar>, start: int, i: int) -> Seq<RunView>
    decreases row.len() - i,
{
    if !(0 <= start <= i < row.len()) {
        Seq::empty()
    } else if i + 1 < row.len() && mergeable(row[i], row[i + 1]) {
        runs_from(row, start, i + 1)
    } else {
        seq![run_at(row, start, (i - start + 1) as nat)] + runs_from(row, i + 1, i + 1)
    }
}

/// The runs of a row, left to right.
pub open spec fn row_runs(row: Seq<Sugar>) -> Seq<RunView> {
    runs_from(row, 0, 0)
}

/// Where the accumulator stands between two cells.
#[derive(Clone, Copy, Debug, PartialEq, Eq, Structural)]
pub enum RunState {
    /// Nothing gathered.
    Empty,
    /// At least one cell gathered, the run still open.
    Accumulating,
    /// The run is closed; the next cell starts over.
    FinalizePending,
}

/// Gathers the cells of the run that is being read.
#[derive(Clone, Debug)]
pub struct RepeatedSugar {
    pub content_str: String,
    pub foreground_color: Color,
    pub count: usize,
    pub state: RunState,
}

impl RepeatedSugar {
    /// One character is held for each cell counted, and the state agrees
    /// with the count.
    pub open spec fn well_formed(&self) -> bool {
        &&& self.content_str@.len() == self.count
        &&& self.state == RunState::Empty ==> self.count == 0
        &&& self.state == RunState::Accumulating ==> self.count > 0
    }

    /// An accumulator that holds nothing.
    pub fn new() -> (acc: RepeatedSugar)
        ensures
            acc.well_formed(),
            acc.state == RunState::Empty,
            acc.count == 0,
            acc.content_str@ == Seq::<char>::empty(),
            acc.foreground_color == (Color { r: 0, g: 0, b: 0, a: 0 }),
    {
        RepeatedSugar {
            content_str: String::new(),
            foreground_color: Color { r: 0, g: 0, b: 0, a: 0 },
            count: 0,
            state: RunState::Empty,
        }
    }

    /// Takes one more cell into the run. After a closed run the cell starts a
    /// new one.
    pub fn set(&mut self, sugar: &Sugar)
        requires
            old(self).well_formed(),
            old(self).count < usize::MAX,
        ensures
            final(self).well_formed(),
            final(self).state == RunState::Accumulating,
            final(self).foreground_color == sugar.foreground_color,
            old(self).state != RunState::FinalizePending ==> {
                &&& final(self).count == old(self).count + 1
                &&& final(self).content_str@ == old(self).content_str@.push(sugar.content)
            },
            old(self).state == RunState::FinalizePending ==> {
                &&& final(self).count == 1
                &&& final(self).content_str@ == seq![sugar.content]
            },
    {
        if self.reset_on_next() {
            self.reset();
        }
        self.content_str.push(sugar.content);
        self.foreground_color = sugar.foreground_color;
        self.count = self.count + 1;
        self.state = RunState::Accumulating;
    }

    /// Closes the run: what was gathered stays readable until the next `set`
    /// or `reset`.
    pub fn set_reset_on_next(&mut self)
        ensures
            final(self).state == RunState::FinalizePending,
            final(self).count == old(self).count,
            final(self).content_str == old(self).content_str,
            final(self).foreground_color == old(self).foreground_color,
            old(self).well_formed() ==> final(self).well_formed(),
    {
        self.state = RunState::FinalizePending;
    }

    /// Whether the run is closed.
    pub fn reset_on_next(&self) -> (pending: bool)
        ensures
            pending == (self.state == RunState::FinalizePending),
    {
        self.state == RunState::FinalizePending
    }

    /// Number of cells gathered.
    pub fn count(&self) -> (n: usize)
        ensures
            n == self.count,
    {
        self.count
    }

    /// Forgets what was gathered.
    pub fn reset(&mut self)
        ensures
            final(self).well_formed(),
            final(self).state == RunState::Empty,
            final(self).count == 0,
            final(self).content_str@ == Seq::<char>::empty(),
            final(self).foreground_color == (Color { r: 0, g: 0, b: 0, a: 0 }),
    {
        self.content_str = String::new();
        self.foreground_color = Color { r: 0, g: 0, b: 0, a: 0 };
        self.count = 0;
        self.state = RunState::Empty;
    }
}

/// Folds a row into its runs in one pass from left to right, looking no
/// further than the next cell.
pub fn merge_runs(stack: &Vec<Sugar>) -> (runs: Vec<Run>)
    ensures
        run_views(runs@) == row_runs(stack@),
{
    let mut runs: Vec<Run> = Vec::new();
    let mut repeated = RepeatedSugar::new();
    let size = stack.len();
    let ghost row = stack@;
    let mut start: usize = 0;
    let mut i: usize = 0;
    while i < size
        invariant
            size == stack@.len(),
            row == stack@,
            start <= i <= size,
            i == size ==> start == i,
            repeated.well_formed(),
            repeated.state != RunState::FinalizePending,
            repeated.count == i - start,
            repeated.content_str@ == cell_contents(row.subrange(start as int, i as int)),
            run_views(runs@) + runs_from(row, start as int, i as int) == row_runs(row),
        decreases size - i,
    {
        let cell = &stack[i];
        if i + 1 < size && can_merge(cell, &stack[i + 1]) {
            repeated.set(cell);
            assert(row.subrange(start as int, i + 1) == row.subrange(start as int, i as int).push(
                row[i as int],
            ));
        } else {
            let ghost closed = run_at(row, start as int, (i - start + 1) as nat);
            let mut content = String::new();
            let mut foreground_color = cell.foreground_color;
            let mut quantity: usize = 1;
            if repeated.count() > 0 {
                repeated.set(cell);
                quantity = repeated.count();
                content = repeated.content_str.clone();
                foreground_color = repeated.foreground_color;
            } else {
                content.push(cell.content);
            }
            repeated.set_reset_on_next();
            assert(row.subrange(start as int, i + 1) == row.subrange(start as int, i as int).push(
                row[i as int],
            ));
            assert(content@ == closed.content);
            let run = Run {
                start,
                quantity,
                content,
                foreground_color,
                background_color: cell.background_color,
                style: cell.style,
                decoration: cell.decoration,
            };
            assert(run@ == closed);
            let ghost before = runs@;
            runs.push(run);
            assert(run_views(runs@) == run_views(before).push(closed));
            assert(run_views(runs@) + runs_from(row, i + 1, i + 1) == run_views(before) + (
            seq![closed] + runs_from(row, i + 1, i + 1)));
            if repeated.reset_on_next() {
                repeated.reset();
            }
            start = i + 1;
        }
        i = i + 1;
    }
    runs
}

/// The cell at column `c` merges with its right neighbour.
pub open spec fn merges_next(row: Seq<Sugar>, c: int) -> bool {
    mergeable(row[c], row[c + 1])
}

/// Every cell from column `a` up to, not including, column `b` merges with
/// its right neighbour: the cells from `a` to `b` may share a run.
pub open spec fn chain(row: Seq<Sugar>, a: int, b: int) -> bool {
    forall|c: int| a <= c < b ==> #[trigger] merges_next(row, c)
}

/// The column after the last cell of a run.
pub open spec fn run_end(run: RunView) -> int {
    (run.start + run.quantity) as int
}

/// `run` is a run of `row`: it has a cell, lies inside the row, holds what
/// its cells hold, and its cells merge with one another.
pub open spec fn is_run(row: Seq<Sugar>, run: RunView) -> bool {
    &&& run.quantity >= 1
    &&& run_end(run) <= row.len()
    &&& run == run_at(row, run.start as int, run.quantity)
    &&& chain(row, run.start as int, run_end(run) - 1)
}

/// Run `j + 1` begins where run `j` ends, and the last cell of run `j` does
/// not merge with the first of run `j + 1`.
pub open spec fn adjoins(row: Seq<Sugar>, runs: Seq<RunView>, j: int) -> bool {
    &&& runs[j + 1].start == run_end(runs[j])
    &&& !merges_next(row, run_end(runs[j]) - 1)
}

/// `runs` cut the columns of `row` from `from` on into maximal runs: they
/// begin at `from`, follow one another without a gap up to the end of the
/// row, and none could be longer.
pub open spec fn partitions(row: Seq<Sugar>, runs: Seq<RunView>, from: int) -> bool {
    &&& runs.len() == 0 <==> from >= row.len()
    &&& runs.len() > 0 ==> runs[0].start == from && run_end(runs.last()) == row.len()
    &&& forall|j: int| 0 <= j < runs.len() ==> is_run(row, #[trigger] runs[j])
    &&& forall|j: int| 0 <= j && j + 1 < runs.len() ==> #[trigger] adjoins(row, runs, j)
}

/// The runs read from column `i` on, with an open run that began at `start`,
/// cut the row from `start` on into maximal runs.
pub proof fn lemma_runs_from_partition(row: Seq<Sugar>, start: int, i: int)
    requires
        0 <= start <= i < row.len(),
        chain(row, start, i),
    ensures
        partitions(row, runs_from(row, start, i), start),
    decreases row.len() - i,
{
    let runs = runs_from(row, start, i);
    if i + 1 < row.len() && mergeable(row[i], row[i + 1]) {
        assert(merges_next(row, i));
        lemma_runs_from_partition(row, start, i + 1);
    } else {
        let closed = run_at(row, start, (i - start + 1) as nat);
        let rest = runs_from(row, i + 1, i + 1);
        if i + 1 < row.len() {
            lemma_runs_from_partition(row, i + 1, i + 1);
        }
        assert(runs == seq![closed] + rest);
        assert(is_run(row, closed));
        assert forall|j: int| 0 <= j < runs.len() implies is_run(row, #[trigger] runs[j]) by {
            if j > 0 {
                assert(runs[j] == rest[j - 1]);
            }
        }
        assert forall|j: int| 0 <= j && j + 1 < runs.len() implies #[trigger] adjoins(
            row,
            runs,
            j,
        ) by {
            assert(runs[j + 1] == rest[j]);
            if j > 0 {
                assert(runs[j] == rest[j - 1]);
                assert(adjoins(row, rest, j - 1));
            }
        }
        if rest.len() > 0 {
            assert(runs.last() == rest.last());
        }
    }
}

/// The runs of a row cut the whole row into maximal runs.
pub proof fn lemma_row_runs_partition(row: Seq<Sugar>)
    ensures
        partitions(row, row_runs(row), 0),
{
    if row.len() > 0 {
        lemma_runs_from_partition(row, 0, 0);
    }
}

/// Column `c` lies in the run.
pub open spec fn covers(run: RunView, c: int) -> bool {
    run.start <= c < run_end(run)
}

/// Every column from `start` on lies in one of the runs read from there.
pub proof fn lemma_runs_from_cover(row: Seq<Sugar>, start: int, i: int, c: int)
    requires
        0 <= start <= i < row.len(),
        start <= c < row.len(),
    ensures
        exists|j: int|
            0 <= j < runs_from(row, start, i).len() && covers(
                #[trigger] runs_from(row, start, i)[j],
                c,
            ),
    decreases row.len() - i,
{
    let runs = runs_from(row, start, i);
    if i + 1 < row.len() && mergeable(row[i], row[i + 1]) {
        lemma_runs_from_cover(row, start, i + 1, c);
    } else {
        let closed = run_at(row, start, (i - start + 1) as nat);
        let rest = runs_from(row, i + 1, i + 1);
        assert(runs == seq![closed] + rest);
        if c <= i {
            assert(covers(runs[0], c));
        } else {
            lemma_runs_from_cover(row, i + 1, i + 1, c);
            let j = choose|j: int| 0 <= j < rest.len() && covers(#[trigger] rest[j], c);
            assert(runs[j + 1] == rest[j]);
            assert(covers(runs[j + 1], c));
        }
    }
}

/// Cells that merge with one another from column `a` to column `b`, and that
/// neither neighbour joins, are exactly one run.
pub proof fn lemma_stretch_is_one_run(row: Seq<Sugar>, a: int, b: int)
    requires
        0 <= a <= b < row.len(),
        chain(row, a, b),
        a == 0 || !merges_next(row, a - 1),
        b + 1 == row.len() || !merges_next(row, b),
    ensures
        exists|j: int|
            0 <= j < row_runs(row).len() && #[trigger] row_runs(row)[j] == run_at(
                row,
                a,
                (b - a + 1) as nat,
            ),
{
    let runs = row_runs(row);
    lemma_row_runs_partition(row);
    lemma_runs_from_cover(row, 0, 0, a);
    let j = choose|j: int| 0 <= j < runs.len() && covers(#[trigger] runs[j], a);
    let run = runs[j];
    assert(is_run(row, run));
    if run.start < a {
        assert(merges_next(row, a - 1));
    }
    if run_end(run) - 1 < b {
        assert(adjoins(row, runs, j));
        assert(merges_next(row, run_end(run) - 1));
    }
    if run_end(run) - 1 > b {
        assert(merges_next(row, b));
    }
    assert(run.start == a && run.quantity == b - a + 1);
}

/// A row whose first `k + 1` cells merge with one another, and whose next
/// cell, if there is one, does not join them, begins with one run of
/// quantity `k + 1`. If these are all its cells, that run is the only one.
pub proof fn lemma_identical_cells_merge(row: Seq<Sugar>, k: int)
    requires
        0 <= k < row.len(),
        chain(row, 0, k),
        k + 1 == row.len() || !merges_next(row, k),
    ensures
        row_runs(row).len() >= 1,
        row_runs(row)[0] == run_at(row, 0, (k + 1) as nat),
        row_runs(row)[0].quantity == k + 1,
        k + 1 == row.len() ==> row_runs(row) == seq![run_at(row, 0, (k + 1) as nat)],
{
    let runs = row_runs(row);
    lemma_row_runs_partition(row);
    let run = runs[0];
    assert(is_run(row, run));
    if run_end(run) - 1 < k {
        assert(adjoins(row, runs, 0));
        assert(merges_next(row, run_end(run) - 1));
    }
    if run_end(run) - 1 > k {
        assert(merges_next(row, k));
    }
    assert(run.quantity == k + 1);
    if k + 1 == row.len() {
        if runs.len() > 1 {
            assert(adjoins(row, runs, 0));
            assert(is_run(row, runs[1]));
        }
        assert(runs =~= seq![run_at(row, 0, (k + 1) as nat)]);
    }
}

/// The cells of a stretch that merge with one another hold the same
/// character and the same colors, and none of them carries a decoration if
/// there is more than one.
pub proof fn lemma_chain_is_uniform(row: Seq<Sugar>, a: int, b: int, c: int)
    requires
        0 <= a <= c <= b < row.len(),
        chain(row, a, b),
    ensures
        row[c].content == row[a].content,
        row[c].foreground_color == row[a].foreground_color,
        row[c].background_color == row[a].background_color,
        a < b ==> row[c].decoration is None,
    decreases c - a,
{
    if a < c {
        lemma_chain_is_uniform(row, a, b, c - 1);
        assert(merges_next(row, c - 1));
    } else if a < b {
        assert(merges_next(row, a));
    }
}

/// A cell that carries a decoration is a run of quantity 1 by itself,
/// whatever its neighbours hold.
pub proof fn lemma_decorated_cell_is_alone(row: Seq<Sugar>, c: int)
    requires
        0 <= c < row.len(),
        row[c].decoration is Some,
    ensures
        exists|j: int|
            0 <= j < row_runs(row).len() && #[trigger] row_runs(row)[j] == run_at(row, c, 1),
{
    lemma_stretch_is_one_run(row, c, c);
}

/// Two neighbours of which one carries a decoration never share a run: a run
/// ends at the left one and the next run begins at the right one. In a row of
/// just these two cells each is a run of quantity 1.
pub proof fn lemma_decoration_separates(row: Seq<Sugar>, c: int)
    requires
        0 <= c,
        c + 1 < row.len(),
        row[c].decoration is Some || row[c + 1].decoration is Some,
    ensures
        exists|j: int|
            0 <= j && j + 1 < row_runs(row).len() && run_end(#[trigger] row_runs(row)[j]) == c + 1
                && row_runs(row)[j + 1].start == c + 1,
        row.len() == 2 ==> row_runs(row) == seq![run_at(row, 0, 1), run_at(row, 1, 1)],
{
    let runs = row_runs(row);
    lemma_row_runs_partition(row);
    lemma_runs_from_cover(row, 0, 0, c);
    let j = choose|j: int| 0 <= j < runs.len() && covers(#[trigger] runs[j], c);
    assert(is_run(row, runs[j]));
    if run_end(runs[j]) > c + 1 {
        assert(merges_next(row, c));
    }
    assert(run_end(runs[j]) == c + 1);
    assert(adjoins(row, runs, j));
    if row.len() == 2 {
        if j > 0 {
            assert(adjoins(row, runs, j - 1));
            assert(is_run(row, runs[j - 1]));
        }
        assert(is_run(row, runs[1]));
        if runs.len() > 2 {
            assert(adjoins(row, runs, 1));
            assert(is_run(row, runs[2]));
        }
        assert(runs =~= seq![run_at(row, 0, 1), run_at(row, 1, 1)]);
    }
}

} // verus!
