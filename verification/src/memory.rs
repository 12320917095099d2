//! The sizes a grid remembers: one width per column and one height per row.
//!
//! [`State`] is the executable record and [`Memory`] its mathematical view.
//! The same shape serves twice: as the snapshot kept from the previous frame
//! and as the accumulator that the current frame fills by max-merge.
//! [`MemoryStore`] keeps one snapshot per grid identifier between frames.

use crate::geometry::{max_of, SIZE_LIMIT};
use std::collections::HashMap;
use vstd::prelude::*;

verus! {

/// The value of slot `i` of `s`, where a slot that does not exist counts as 0.
pub open spec fn slot_or_zero(s: Seq<i64>, i: int) -> i64 {
    if 0 <= i < s.len() {
        s[i]
    } else {
        0
    }
}

/// Max-merge of one measurement into a sequence of sizes: the sequence is
/// widened to hold slot `index`, new slots are 0, and slot `index` becomes the
/// larger of its value and `measured`.
pub open spec fn grow(s: Seq<i64>, index: nat, measured: i64) -> Seq<i64> {
    Seq::new(
        if s.len() > index {
            s.len()
        } else {
            index + 1
        },
        |i: int|
            if i == index {
                max_of(slot_or_zero(s, i), measured)
            } else {
                slot_or_zero(s, i)
            },
    )
}

/// The sum of all sizes in `s`.
pub open spec fn total(s: Seq<i64>) -> int
    decreases s.len(),
{
    if s.len() == 0 {
        0
    } else {
        total(s.drop_last()) + s.last()
    }
}

/// Every size in `s` is at least 0 and at most [`SIZE_LIMIT`].
pub open spec fn sizes_bounded(s: Seq<i64>) -> bool {
    forall|i: int| 0 <= i < s.len() ==> 0 <= #[trigger] s[i] <= SIZE_LIMIT
}

/// The mathematical view of a [`State`].
pub struct Memory {
    /// The width of each column, by column index.
    pub col_widths: Seq<i64>,
    /// The height of each row, by row index.
    pub row_heights: Seq<i64>,
}

impl Memory {
    /// The memory of a grid that has measured nothing.
    pub open spec fn empty() -> Memory {
        Memory { col_widths: Seq::empty(), row_heights: Seq::empty() }
    }

    /// Every remembered size is at least 0 and at most [`SIZE_LIMIT`].
    pub open spec fn wf(self) -> bool {
        sizes_bounded(self.col_widths) && sizes_bounded(self.row_heights)
    }

    /// The remembered width of column `col`, if there is one.
    pub open spec fn col_width(self, col: nat) -> Option<i64> {
        if col < self.col_widths.len() {
            Some(self.col_widths[col as int])
        } else {
            None
        }
    }

    /// The remembered height of row `row`, if there is one.
    pub open spec fn row_height(self, row: nat) -> Option<i64> {
        if row < self.row_heights.len() {
            Some(self.row_heights[row as int])
        } else {
            None
        }
    }

    /// The memory after a cell of width `width` was measured in column `col`.
    pub open spec fn grow_col(self, col: nat, width: i64) -> Memory {
        Memory { col_widths: grow(self.col_widths, col, width), row_heights: self.row_heights }
    }

    /// The memory after a cell of height `height` was measured in row `row`.
    pub open spec fn grow_row(self, row: nat, height: i64) -> Memory {
        Memory { col_widths: self.col_widths, row_heights: grow(self.row_heights, row, height) }
    }

    /// The width of all columns together with `x_spacing` between neighbours.
    pub open spec fn full_width(self, x_spacing: int) -> int {
        total(self.col_widths) + gaps(self.col_widths.len()) * x_spacing
    }
}

/// Growing keeps every slot that was there at least as large as it was, and
/// makes slot `index` at least `measured`.
pub proof fn lemma_grow_monotonic(s: Seq<i64>, index: nat, measured: i64)
    ensures
        grow(s, index, measured).len() >= s.len(),
        grow(s, index, measured).len() > index,
        grow(s, index, measured)[index as int] >= measured,
        forall|i: int| 0 <= i < s.len() ==> #[trigger] grow(s, index, measured)[i] >= s[i],
        forall|i: int| 0 <= i < s.len() && i != index ==> #[trigger] grow(s, index, measured)[i] == s[i],
{
}

/// Growing keeps sizes within bounds when the measurement is within bounds.
pub proof fn lemma_grow_bounded(s: Seq<i64>, index: nat, measured: i64)
    requires
        sizes_bounded(s),
        measured <= SIZE_LIMIT,
    ensures
        sizes_bounded(grow(s, index, measured)),
{
}

/// The number of gaps between `n` neighbours.
pub open spec fn gaps(n: nat) -> nat {
    if n <= 1 {
        0
    } else {
        (n - 1) as nat
    }
}

/// The width of the first `n` columns of `s` with `x_spacing` between
/// neighbours.
pub open spec fn width_of_first(s: Seq<i64>, n: nat, x_spacing: int) -> int {
    total(s.take(n as int)) + gaps(n) * x_spacing
}

proof fn lemma_total_step(s: Seq<i64>, i: int)
    requires
        0 <= i < s.len(),
    ensures
        total(s.take(i + 1)) == total(s.take(i)) + s[i],
{
    assert(s.take(i + 1).drop_last() =~= s.take(i));
}

proof fn lemma_width_step(s: Seq<i64>, i: nat, x_spacing: int)
    requires
        i < s.len(),
    ensures
        width_of_first(s, i + 1, x_spacing) == width_of_first(s, i, x_spacing) + s[i as int] + (if i
            == 0 {
            0
        } else {
            x_spacing
        }),
{
    lemma_total_step(s, i as int);
    if i >= 1 {
        assert(gaps(i + 1) * x_spacing == gaps(i) * x_spacing + x_spacing) by (nonlinear_arith)
            requires
                gaps(i + 1) == gaps(i) + 1,
        ;
    }
}

proof fn lemma_width_grows(s: Seq<i64>, i: nat, x_spacing: int)
    requires
        sizes_bounded(s),
        0 <= x_spacing,
        i <= s.len(),
    ensures
        width_of_first(s, i, x_spacing) <= width_of_first(s, s.len(), x_spacing),
    decreases s.len() - i,
{
    if i < s.len() {
        lemma_width_step(s, i, x_spacing);
        lemma_width_grows(s, i + 1, x_spacing);
    }
}

/// Column widths and row heights measured on one frame.
#[derive(Debug, PartialEq, Eq)]
pub struct State {
    col_widths: Vec<i64>,
    row_heights: Vec<i64>,
}

impl View for State {
    type V = Memory;

    closed spec fn view(&self) -> Memory {
        Memory { col_widths: self.col_widths@, row_heights: self.row_heights@ }
    }
}

impl Clone for State {
    fn clone(&self) -> (r: State)
        ensures
            r@ == self@,
    {
        self.duplicate()
    }
}

impl Default for State {
    fn default() -> (r: State)
        ensures
            r@ == Memory::empty(),
    {
        State::new()
    }
}

/// Max-merges `measured` into slot `index` of `v`.
fn grow_slot(v: &mut Vec<i64>, index: usize, measured: i64)
    requires
        index < usize::MAX,
    ensures
        final(v)@ == grow(old(v)@, index as nat, measured),
{
    while v.len() <= index
        invariant
            v@.len() >= old(v)@.len(),
            v@.len() <= old(v)@.len() || v@.len() <= index + 1,
            forall|i: int| 0 <= i < v@.len() ==> v@[i] == slot_or_zero(old(v)@, i),
        decreases index + 1 - v@.len(),
    {
        v.push(0);
    }
    let current: i64 = v[index];
    if measured > current {
        v[index] = measured;
    }
    assert(v@ =~= grow(old(v)@, index as nat, measured));
}

impl State {
    /// Every size is at least 0 and at most [`SIZE_LIMIT`].
    pub open spec fn wf(&self) -> bool {
        self@.wf()
    }

    /// A state that has measured nothing.
    pub fn new() -> (r: State)
        ensures
            r@ == Memory::empty(),
            r.wf(),
    {
        State { col_widths: Vec::new(), row_heights: Vec::new() }
    }

    /// Builds a state from given sizes.
    pub fn from_sizes(col_widths: Vec<i64>, row_heights: Vec<i64>) -> (r: State)
        ensures
            r@ == (Memory { col_widths: col_widths@, row_heights: row_heights@ }),
    {
        State { col_widths, row_heights }
    }

    /// Computes whether every size is at least 0 and at most [`SIZE_LIMIT`].
    pub fn is_wf(&self) -> (r: bool)
        ensures
            r == self.wf(),
    {
        sizes_in_bounds(&self.col_widths) && sizes_in_bounds(&self.row_heights)
    }

    /// The column widths, by column index.
    pub fn col_widths(&self) -> (r: &Vec<i64>)
        ensures
            r@ == self@.col_widths,
    {
        &self.col_widths
    }

    /// The row heights, by row index.
    pub fn row_heights(&self) -> (r: &Vec<i64>)
        ensures
            r@ == self@.row_heights,
    {
        &self.row_heights
    }

    /// Records that a cell of width `width` was measured in column `col`: the
    /// column's width becomes the larger of what it was and `width`. Columns
    /// up to `col` that had no width yet get width 0.
    pub fn set_min_col_width(&mut self, col: usize, width: i64)
        requires
            col < usize::MAX,
        ensures
            final(self)@ == old(self)@.grow_col(col as nat, width),
            old(self).wf() && width <= SIZE_LIMIT ==> final(self).wf(),
    {
        grow_slot(&mut self.col_widths, col, width);
        proof {
            if old(self).wf() && width <= SIZE_LIMIT {
                lemma_grow_bounded(old(self)@.col_widths, col as nat, width);
            }
        }
    }

    /// Records that a cell of height `height` was measured in row `row`: the
    /// row's height becomes the larger of what it was and `height`. Rows up
    /// to `row` that had no height yet get height 0.
    pub fn set_min_row_height(&mut self, row: usize, height: i64)
        requires
            row < usize::MAX,
        ensures
            final(self)@ == old(self)@.grow_row(row as nat, height),
            old(self).wf() && height <= SIZE_LIMIT ==> final(self).wf(),
    {
        grow_slot(&mut self.row_heights, row, height);
        proof {
            if old(self).wf() && height <= SIZE_LIMIT {
                lemma_grow_bounded(old(self)@.row_heights, row as nat, height);
            }
        }
    }

    /// The width of column `col`, if one was recorded.
    pub fn col_width(&self, col: usize) -> (r: Option<i64>)
        ensures
            r == self@.col_width(col as nat),
    {
        if col < self.col_widths.len() {
            Some(self.col_widths[col])
        } else {
            None
        }
    }

    /// The height of row `row`, if one was recorded.
    pub fn row_height(&self, row: usize) -> (r: Option<i64>)
        ensures
            r == self@.row_height(row as nat),
    {
        if row < self.row_heights.len() {
            Some(self.row_heights[row])
        } else {
            None
        }
    }

    /// Computes the width of all columns together with `x_spacing` between
    /// neighbours, or `None` where that width exceeds [`SIZE_LIMIT`].
    pub fn checked_full_width(&self, x_spacing: i64) -> (r: Option<i64>)
        requires
            self.wf(),
            0 <= x_spacing,
        ensures
            r matches Some(w) ==> w == self@.full_width(x_spacing as int) && 0 <= w <= SIZE_LIMIT,
            r is None <==> self@.full_width(x_spacing as int) > SIZE_LIMIT,
    {
        let n = self.col_widths.len();
        let mut acc: i64 = 0;
        let mut i: usize = 0;
        proof {
            assert(self.col_widths@.take(n as int) =~= self.col_widths@);
        }
        while i < n
            invariant
                i <= n,
                n == self.col_widths@.len(),
                sizes_bounded(self.col_widths@),
                0 <= x_spacing,
                0 <= acc <= SIZE_LIMIT,
                acc == width_of_first(self.col_widths@, i as nat, x_spacing as int),
                width_of_first(self.col_widths@, n as nat, x_spacing as int) == self@.full_width(
                    x_spacing as int,
                ),
            decreases n - i,
        {
            proof {
                lemma_width_step(self.col_widths@, i as nat, x_spacing as int);
                lemma_width_grows(self.col_widths@, (i + 1) as nat, x_spacing as int);
            }
            if i > 0 {
                if x_spacing > SIZE_LIMIT - acc {
                    return None;
                }
                acc += x_spacing;
            }
            let w: i64 = self.col_widths[i];
            if w > SIZE_LIMIT - acc {
                return None;
            }
            acc += w;
            i += 1;
        }
        Some(acc)
    }

    /// Computes the width of all columns together with `x_spacing` between
    /// neighbours.
    pub fn full_width(&self, x_spacing: i64) -> (r: i64)
        requires
            self.wf(),
            0 <= x_spacing,
            self@.full_width(x_spacing as int) <= SIZE_LIMIT,
        ensures
            r == self@.full_width(x_spacing as int),
            0 <= r <= SIZE_LIMIT,
    {
        match self.checked_full_width(x_spacing) {
            Some(w) => w,
            None => 0,
        }
    }

    /// Computes whether two states hold the same sizes.
    pub fn same_as(&self, other: &State) -> (r: bool)
        ensures
            r == (self@ == other@),
    {
        same_sizes(&self.col_widths, &other.col_widths) && same_sizes(
            &self.row_heights,
            &other.row_heights,
        )
    }

    /// A copy of this state.
    pub fn duplicate(&self) -> (r: State)
        ensures
            r@ == self@,
    {
        State { col_widths: copy_sizes(&self.col_widths), row_heights: copy_sizes(&self.row_heights) }
    }
}

/// Computes whether every size in `v` is at least 0 and at most [`SIZE_LIMIT`].
fn sizes_in_bounds(v: &Vec<i64>) -> (r: bool)
    ensures
        r == sizes_bounded(v@),
{
    let mut i: usize = 0;
    while i < v.len()
        invariant
            i <= v@.len(),
            forall|j: int| 0 <= j < i ==> 0 <= #[trigger] v@[j] <= SIZE_LIMIT,
        decreases v@.len() - i,
    {
        if v[i] < 0 || v[i] > SIZE_LIMIT {
            return false;
        }
        i += 1;
    }
    true
}

/// Computes whether two vectors hold the same sizes in the same order.
fn same_sizes(a: &Vec<i64>, b: &Vec<i64>) -> (r: bool)
    ensures
        r == (a@ == b@),
{
    if a.len() != b.len() {
        return false;
    }
    let mut i: usize = 0;
    while i < a.len()
        invariant
            i <= a@.len(),
            a@.len() == b@.len(),
            forall|j: int| 0 <= j < i ==> a@[j] == b@[j],
        decreases a@.len() - i,
    {
        if a[i] != b[i] {
            return false;
        }
        i += 1;
    }
    assert(a@ =~= b@);
    true
}

/// Copies a vector of sizes.
fn copy_sizes(v: &Vec<i64>) -> (r: Vec<i64>)
    ensures
        r@ == v@,
{
    let mut out: Vec<i64> = Vec::new();
    let mut i: usize = 0;
    while i < v.len()
        invariant
            i <= v@.len(),
            out@.len() == i,
            forall|j: int| 0 <= j < i ==> out@[j] == v@[j],
        decreases v@.len() - i,
    {
        out.push(v[i]);
        i += 1;
    }
    assert(out@ =~= v@);
    out
}

/// What is remembered between frames: for each grid identifier that has
/// been committed, the sizes of its latest committed frame.
pub struct MemoryStore {
    entries: HashMap<u64, State>,
}

impl View for MemoryStore {
    type V = Map<u64, Memory>;

    closed spec fn view(&self) -> Map<u64, Memory> {
        Map::new(|id: u64| self.entries@.contains_key(id), |id: u64| self.entries@[id]@)
    }
}

impl MemoryStore {
    /// Every remembered state is well-formed.
    pub open spec fn wf(&self) -> bool {
        forall|id: u64| #[trigger] self@.contains_key(id) ==> self@[id].wf()
    }

    /// A store that remembers nothing.
    pub fn new() -> (r: MemoryStore)
        ensures
            r@ == Map::<u64, Memory>::empty(),
            r.wf(),
    {
        let r = MemoryStore { entries: HashMap::new() };
        assert(r@ =~= Map::<u64, Memory>::empty());
        r
    }

    /// Whether anything is remembered under `id`.
    pub fn contains(&self, id: u64) -> (r: bool)
        ensures
            r == self@.contains_key(id),
    {
        self.entries.contains_key(&id)
    }
}

impl State {
    /// Reads what `store` remembers under `id`. Nothing being remembered is
    /// no failure: it is how a grid looks on its first frame.
    pub fn load(store: &MemoryStore, id: u64) -> (r: Option<State>)
        ensures
            r matches Some(s) ==> store@.contains_key(id) && s@ == store@[id],
            r is None ==> !store@.contains_key(id),
    {
        match store.entries.get(&id) {
            Some(state) => Some(state.duplicate()),
            None => None,
        }
    }

    /// Makes `store` remember this state under `id`, in place of whatever it
    /// remembered there. Nothing else in the store changes.
    pub fn store(self, store: &mut MemoryStore, id: u64)
        ensures
            final(store)@ == old(store)@.insert(id, self@),
            old(store).wf() && self.wf() ==> final(store).wf(),
    {
        store.entries.insert(id, self);
        assert(store@ =~= old(store)@.insert(id, self@));
    }
}

} // verus!
