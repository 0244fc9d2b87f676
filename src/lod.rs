//! Level-of-detail refinement: levels of kept grid cells, each kept cell of
//! one level being refined into a group of cells of the next.

use vstd::prelude::*;
use crate::grid::{
    cell_in_grid, cell_total, grid_cells, grid_order, lemma_selected_in_grid, select_flagged,
    selected, GridCell, GridError,
};

verus! {

/// What a refinement loop does next.
#[derive(Clone, Copy, Debug, PartialEq, Eq, Structural)]
pub enum LodStep {
    /// No further level is produced.
    Stop,
    /// Produce the first level, by sampling the whole bounds of the field.
    Root,
    /// Produce the next level, by sampling the span of each cell of the finest level.
    Refine,
}

/// The decision of the refinement loop, given how many levels exist, how many
/// are allowed, and whether the cell edge of the finest level is already below
/// the smallest edge wanted.
pub open spec fn lod_step(levels: nat, max_lods: nat, finest_below_min: bool) -> LodStep {
    if levels >= max_lods {
        LodStep::Stop
    } else if levels == 0 {
        LodStep::Root
    } else if finest_below_min {
        LodStep::Stop
    } else {
        LodStep::Refine
    }
}

/// The groups of a level laid end to end: its first `n` groups.
pub open spec fn flat_prefix(groups: Seq<Seq<GridCell>>, n: nat) -> Seq<GridCell>
    decreases n,
{
    if n == 0 {
        Seq::empty()
    } else {
        flat_prefix(groups, (n - 1) as nat) + groups[n - 1]
    }
}

/// The cells of a level, group after group.
pub open spec fn flat_cells(groups: Seq<Seq<GridCell>>) -> Seq<GridCell> {
    flat_prefix(groups, groups.len())
}

/// The level produced from one flag per cell of each parent's grid: for each
/// parent, the cells of its grid whose flag is set.
pub open spec fn refined_level(resolution: nat, near: Seq<Seq<bool>>) -> Seq<Seq<GridCell>> {
    Seq::new(near.len(), |g: int| selected(grid_order(resolution), near[g]))
}

/// The levels produced so far, coarse to fine. Level 0 holds a single group,
/// the cells of the grid over the whole bounds that lie near the surface. Each
/// later level holds one group per cell of the level before (in that level's
/// flat order): the cells of the grid over that parent cell's span that lie
/// near the surface. Cell coordinates are relative to the grid they belong to.
pub struct LodLevels {
    resolution: usize,
    max_lods: usize,
    grid: Vec<GridCell>,
    levels: Vec<Vec<Vec<GridCell>>>,
    finest: Vec<GridCell>,
}

impl LodLevels {
    /// Cells along each axis of every grid.
    pub closed spec fn spec_resolution(&self) -> nat {
        self.resolution as nat
    }

    /// The most levels that may be produced.
    pub closed spec fn spec_max_lods(&self) -> nat {
        self.max_lods as nat
    }

    /// Group `g` of level `k`.
    pub closed spec fn spec_group(&self, k: int, g: int) -> Seq<GridCell> {
        self.levels@[k]@[g]@
    }

    /// Level `k`, as its sequence of groups.
    pub closed spec fn spec_level(&self, k: int) -> Seq<Seq<GridCell>> {
        Seq::new(self.levels@[k]@.len(), |g: int| self.spec_group(k, g))
    }

    /// All levels, coarse to fine.
    pub open spec fn view(&self) -> Seq<Seq<Seq<GridCell>>> {
        Seq::new(self.spec_level_count(), |k: int| self.spec_level(k))
    }

    /// Number of levels produced.
    pub closed spec fn spec_level_count(&self) -> nat {
        self.levels@.len()
    }

    /// How many grids the next level samples: one for the first level, else
    /// one per cell of the finest level.
    pub open spec fn spec_parent_count(&self) -> nat {
        if self@.len() == 0 {
            1
        } else {
            flat_cells(self@.last()).len()
        }
    }

    /// The hierarchy's structure holds.
    pub open spec fn wf(&self) -> bool {
        &&& self.inner_wf()
        &&& self.spec_resolution() > 0
        &&& cell_total(self.spec_resolution()) <= usize::MAX
        &&& self@.len() <= self.spec_max_lods()
        &&& self@.len() > 0 ==> self@[0].len() == 1
        &&& forall|k: int|
            1 <= k < self@.len() ==> #[trigger] self@[k].len() == flat_cells(self@[k - 1]).len()
        &&& forall|k: int, g: int, i: int|
            0 <= k < self@.len() && 0 <= g < self@[k].len() && 0 <= i < self@[k][g].len()
                ==> cell_in_grid(self.spec_resolution(), #[trigger] self@[k][g][i])
    }

    /// The internal fields agree with the view.
    pub closed spec fn inner_wf(&self) -> bool {
        &&& self.grid@ == grid_order(self.resolution as nat)
        &&& self.levels@.len() == 0 ==> self.finest@.len() == 0
        &&& self.levels@.len() > 0 ==> self.finest@ == flat_cells(self@.last())
    }

    /// An empty hierarchy of grids with `resolution` cells along each axis,
    /// that will hold at most `max_lods` levels.
    pub fn new(resolution: usize, max_lods: usize) -> (r: Result<LodLevels, GridError>)
        ensures
            resolution == 0 ==> r == Err::<LodLevels, GridError>(GridError::ZeroResolution),
            resolution > 0 && cell_total(resolution as nat) > usize::MAX ==> r == Err::<
                LodLevels,
                GridError,
            >(GridError::TooManyCells),
            resolution > 0 && cell_total(resolution as nat) <= usize::MAX ==> r is Ok && r->Ok_0.wf()
                && r->Ok_0@.len() == 0 && r->Ok_0.spec_resolution() == resolution
                && r->Ok_0.spec_max_lods() == max_lods,
    {
        match grid_cells(resolution) {
            Err(e) => Err(e),
            Ok(grid) => {
                let lods = LodLevels {
                    resolution,
                    max_lods,
                    grid,
                    levels: Vec::new(),
                    finest: Vec::new(),
                };
                proof {
                    assert(lods@ =~= Seq::<Seq<Seq<GridCell>>>::empty());
                }
                Ok(lods)
            },
        }
    }

    /// Cells along each axis of every grid.
    pub fn resolution(&self) -> (r: usize)
        ensures
            r == self.spec_resolution(),
    {
        self.resolution
    }

    /// The most levels that may be produced.
    pub fn max_lods(&self) -> (r: usize)
        ensures
            r == self.spec_max_lods(),
    {
        self.max_lods
    }

    /// Number of levels produced so far.
    pub fn level_count(&self) -> (r: usize)
        requires
            self.wf(),
        ensures
            r == self@.len(),
    {
        self.levels.len()
    }

    /// The groups of level `k`, in the order of the parent cells they refine.
    pub fn level(&self, k: usize) -> (r: &Vec<Vec<GridCell>>)
        requires
            self.wf(),
            k < self@.len(),
        ensures
            r@.len() == self@[k as int].len(),
            forall|g: int| 0 <= g < r@.len() ==> #[trigger] r@[g]@ == self@[k as int][g],
    {
        &self.levels[k]
    }

    /// The cells of the finest level, group after group; empty before the
    /// first level.
    pub fn finest_cells(&self) -> (r: &Vec<GridCell>)
        requires
            self.wf(),
        ensures
            self@.len() == 0 ==> r@.len() == 0,
            self@.len() > 0 ==> r@ == flat_cells(self@.last()),
    {
        &self.finest
    }

    /// The cells of one grid, in visiting order: the cells the next level
    /// samples over each parent.
    pub fn grid(&self) -> (r: &Vec<GridCell>)
        requires
            self.wf(),
        ensures
            r@ == grid_order(self.spec_resolution()),
    {
        &self.grid
    }

    /// How many grids the next level samples: one for the first level, else
    /// one per cell of the finest level.
    pub fn parent_count(&self) -> (r: usize)
        requires
            self.wf(),
        ensures
            r == self.spec_parent_count(),
    {
        if self.levels.len() == 0 {
            1
        } else {
            self.finest.len()
        }
    }

    /// Adds the next level. `near[g][i]` tells whether cell `i` (in visiting
    /// order) of the grid sampled over parent `g` lies near the surface. The
    /// first level has a single parent, the whole bounds; each later level has
    /// one parent per cell of the finest level.
    pub fn push_level(&mut self, near: &Vec<Vec<bool>>)
        requires
            old(self).wf(),
            old(self)@.len() < old(self).spec_max_lods(),
            near@.len() == old(self).spec_parent_count(),
            forall|g: int|
                0 <= g < near@.len() ==> #[trigger] near@[g]@.len() == cell_total(
                    old(self).spec_resolution(),
                ),
        ensures
            final(self).wf(),
            final(self).spec_resolution() == old(self).spec_resolution(),
            final(self).spec_max_lods() == old(self).spec_max_lods(),
            final(self)@ == old(self)@.push(
                refined_level(old(self).spec_resolution(), near@.map_values(|v: Vec<bool>| v@)),
            ),
    {
        let ghost res = self.resolution as nat;
        let ghost flags = near@.map_values(|v: Vec<bool>| v@);
        let ghost target = refined_level(res, flags);
        let mut level: Vec<Vec<GridCell>> = Vec::new();
        let mut flat: Vec<GridCell> = Vec::new();
        let mut g: usize = 0;
        while g < near.len()
            invariant
                self.wf(),
                res == self.resolution,
                flags == near@.map_values(|v: Vec<bool>| v@),
                target == refined_level(res, flags),
                forall|j: int| 0 <= j < near@.len() ==> #[trigger] near@[j]@.len() == cell_total(res),
                g <= near@.len(),
                level@.len() == g,
                forall|j: int| 0 <= j < g ==> #[trigger] level@[j]@ == target[j],
                flat@ == flat_prefix(target, g as nat),
            decreases near@.len() - g,
        {
            let group = select_flagged(&self.grid, &near[g]);
            let mut i: usize = 0;
            while i < group.len()
                invariant
                    i <= group@.len(),
                    flat@ == flat_prefix(target, g as nat) + group@.take(i as int),
                decreases group@.len() - i,
            {
                proof {
                    assert(group@.take(i + 1) =~= group@.take(i as int).push(group@[i as int]));
                }
                flat.push(group[i]);
                i = i + 1;
            }
            proof {
                assert(group@.take(group@.len() as int) =~= group@);
                assert(group@ == target[g as int]);
            }
            level.push(group);
            g = g + 1;
        }
        self.levels.push(level);
        self.finest = flat;
        proof {
            let n = old(self)@.len();
            assert(self@.len() == n + 1);
            assert forall|k: int| 0 <= k < n implies #[trigger] self@[k] == old(self)@[k] by {
                assert(self.levels@[k] == old(self).levels@[k]);
                assert(self@[k] =~= old(self)@[k]);
            }
            assert(self@[n as int] =~= target);
            assert(self@ =~= old(self)@.push(target));
            assert(flat@ =~= flat_cells(target));
            assert forall|k: int, g: int, i: int|
                0 <= k < self@.len() && 0 <= g < self@[k].len() && 0 <= i < self@[k][g].len()
                    implies cell_in_grid(res, #[trigger] self@[k][g][i]) by {
                if k == n {
                    lemma_selected_in_grid(res, flags[g], cell_total(res));
                } else {
                    assert(old(self)@[k][g][i] == self@[k][g][i]);
                }
            }
        }
    }

    /// What the refinement loop does next: stop once `max_lods` levels exist,
    /// else produce the first level, else stop when the finest cell edge is
    /// below the smallest edge wanted, else refine.
    pub fn next_step(&self, finest_below_min: bool) -> (r: LodStep)
        requires
            self.wf(),
        ensures
            r == lod_step(self@.len(), self.spec_max_lods(), finest_below_min),
    {
        if self.levels.len() >= self.max_lods {
            LodStep::Stop
        } else if self.levels.len() == 0 {
            LodStep::Root
        } else if finest_below_min {
            LodStep::Stop
        } else {
            LodStep::Refine
        }
    }
}

} // verus!
