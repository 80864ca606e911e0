//! Walls of the box.
//!
//! After every pass over a field its outermost ring of cells is rewritten
//! from the cells one step inward. A wall cell that is no corner takes the
//! value of its inward neighbour as the field stood when the pass began,
//! with the sign turned where the field is the velocity component that
//! points into that wall. The four corners come last and in a fixed order:
//! each becomes the mean of the two cells beside it, read from the field as
//! it stands at that moment.
use vstd::prelude::*;
use crate::arithmetic::{
    answers, half, negated, number, one_half, opposite, plus, product, sum, times, whole, Operation,
};
use crate::flow_box::FlowBox;
use crate::grid::{
    cell_index, cell_pos, lemma_index_in_range, lemma_index_of_pos, lemma_pos_in_grid,
    lemma_pos_of_index, valid_dim,
};
use crate::parallel::par_collect;

verus! {

/// Which velocity component, if any, a field holds.
#[derive(Clone, Copy, Debug, PartialEq, Eq, Structural)]
pub enum Bound {
    /// A plain scalar such as a density channel: walls copy, never turn the sign.
    Neither,
    /// The horizontal velocity component: turned at the top and bottom rows.
    X,
    /// The vertical velocity component: turned at the left and right columns.
    Y,
}

/// How one wall cell that is no corner gets its value.
#[derive(Clone, Copy, Debug, PartialEq, Eq, Structural)]
pub struct EdgeRule {
    /// Flat position of the inward neighbour that is read.
    pub source: usize,
    /// Whether the value read has its sign turned before it is stored.
    pub negate: bool,
}

/// How one corner gets its value: the mean of two cells.
#[derive(Clone, Copy, Debug, PartialEq, Eq, Structural)]
pub struct CornerRule {
    /// Flat position of the corner that is written.
    pub target: usize,
    /// Flat position of the neighbour along the row.
    pub along_row: usize,
    /// Flat position of the neighbour along the column.
    pub along_column: usize,
}

/// The rule for the cell at flat position `i`, or `None` where the cell is
/// left alone by the first half of the boundary pass (an inner cell, a
/// corner, or no cell of the grid at all).
pub open spec fn edge_rule_of(bound: Bound, dim: (usize, usize), i: int) -> Option<EdgeRule> {
    let w = dim.0 as int;
    let h = dim.1 as int;
    let (x, y) = cell_pos(i, w);
    if 1 <= x <= w - 2 && y == 0 {
        Some(EdgeRule { source: cell_index(x, 1, w) as usize, negate: bound == Bound::X })
    } else if 1 <= x <= w - 2 && y == h - 1 {
        Some(EdgeRule { source: cell_index(x, h - 2, w) as usize, negate: bound == Bound::X })
    } else if 1 <= y <= h - 2 && x == 0 {
        Some(EdgeRule { source: cell_index(1, y, w) as usize, negate: bound == Bound::Y })
    } else if 1 <= y <= h - 2 && x == w - 1 {
        Some(EdgeRule { source: cell_index(w - 2, y, w) as usize, negate: bound == Bound::Y })
    } else {
        None
    }
}

/// The four corner rules in the order in which they are carried out: the
/// two corners of the first column, top then bottom, then the two of the
/// last column.
pub open spec fn corner_rules_of(dim: (usize, usize)) -> Seq<CornerRule> {
    let w = dim.0 as int;
    let h = dim.1 as int;
    seq![
        CornerRule {
            target: cell_index(0, 0, w) as usize,
            along_row: cell_index(1, 0, w) as usize,
            along_column: cell_index(0, 1, w) as usize,
        },
        CornerRule {
            target: cell_index(0, h - 1, w) as usize,
            along_row: cell_index(1, h - 1, w) as usize,
            along_column: cell_index(0, h - 2, w) as usize,
        },
        CornerRule {
            target: cell_index(w - 1, 0, w) as usize,
            along_row: cell_index(w - 2, 0, w) as usize,
            along_column: cell_index(w - 1, 1, w) as usize,
        },
        CornerRule {
            target: cell_index(w - 1, h - 1, w) as usize,
            along_row: cell_index(w - 2, h - 1, w) as usize,
            along_column: cell_index(w - 1, h - 2, w) as usize,
        },
    ]
}

/// The value of a wall cell: the value of its inward neighbour times minus
/// one where the sign is turned, times one where it is not.
pub open spec fn wall_value<T, E: Fn(Operation<T>) -> T>(eval: &E, negate: bool, inward: T) -> T {
    let one = whole(eval, 1);
    product(
        eval,
        if negate {
            negated(eval, one)
        } else {
            one
        },
        inward,
    )
}

/// The value of a corner: one half times the sum of its two neighbours.
pub open spec fn corner_value<T, E: Fn(Operation<T>) -> T>(
    eval: &E,
    along_row: T,
    along_column: T,
) -> T {
    product(eval, half(eval), sum(eval, along_row, along_column))
}

/// The field after the first half of the boundary pass: every wall cell
/// that is no corner holds the wall value of what its inward neighbour
/// held in `field`; every other cell is as it was.
pub open spec fn after_edges<T, E: Fn(Operation<T>) -> T>(
    bound: Bound,
    dim: (usize, usize),
    field: Seq<T>,
    eval: &E,
) -> Seq<T> {
    Seq::new(
        field.len(),
        |i: int|
            match edge_rule_of(bound, dim, i) {
                Some(rule) => wall_value(eval, rule.negate, field[rule.source as int]),
                None => field[i],
            },
    )
}

/// The field after one corner rule: the corner holds the corner value of
/// its two neighbours as they stand in `field`.
pub open spec fn after_corner<T, E: Fn(Operation<T>) -> T>(
    rule: CornerRule,
    field: Seq<T>,
    eval: &E,
) -> Seq<T> {
    field.update(
        rule.target as int,
        corner_value(eval, field[rule.along_row as int], field[rule.along_column as int]),
    )
}

/// The field after the first `count` of the four corner rules, carried out
/// one after the other.
pub open spec fn corners_done<T, E: Fn(Operation<T>) -> T>(
    rules: Seq<CornerRule>,
    field: Seq<T>,
    eval: &E,
    count: int,
) -> Seq<T> {
    if count <= 0 {
        field
    } else if count == 1 {
        after_corner(rules[0], field, eval)
    } else if count == 2 {
        after_corner(rules[1], after_corner(rules[0], field, eval), eval)
    } else if count == 3 {
        after_corner(
            rules[2],
            after_corner(rules[1], after_corner(rules[0], field, eval), eval),
            eval,
        )
    } else {
        after_corner(
            rules[3],
            after_corner(
                rules[2],
                after_corner(rules[1], after_corner(rules[0], field, eval), eval),
                eval,
            ),
            eval,
        )
    }
}

/// The field after the whole boundary pass: the wall cells first, all from
/// the field as it was, then the four corners one after the other.
pub open spec fn enforced<T, E: Fn(Operation<T>) -> T>(
    bound: Bound,
    dim: (usize, usize),
    field: Seq<T>,
    eval: &E,
) -> Seq<T> {
    corners_done(corner_rules_of(dim), after_edges(bound, dim, field, eval), eval, 4)
}

/// Whether the cell at flat position `i` is one of the four corners.
pub open spec fn is_corner(dim: (usize, usize), i: int) -> bool {
    let (x, y) = cell_pos(i, dim.0 as int);
    (x == 0 || x == dim.0 - 1) && (y == 0 || y == dim.1 - 1)
}

/// The boundary pass keeps the length of the field, leaves every cell
/// that is neither corner nor wall as it was, and gives every wall cell
/// that is no corner the value that its rule names.
pub proof fn lemma_enforced_cells<T, E: Fn(Operation<T>) -> T>(
    bound: Bound,
    dim: (usize, usize),
    field: Seq<T>,
    eval: &E,
    i: int,
)
    requires
        valid_dim(dim),
        field.len() == dim.0 * dim.1,
        0 <= i < field.len(),
        !is_corner(dim, i),
    ensures
        enforced(bound, dim, field, eval).len() == field.len(),
        enforced(bound, dim, field, eval)[i] == after_edges(bound, dim, field, eval)[i],
        edge_rule_of(bound, dim, i) is None ==> enforced(bound, dim, field, eval)[i]
            == field[i],
{
    let w = dim.0 as int;
    let h = dim.1 as int;
    lemma_corner_positions(dim);
    lemma_pos_in_grid(i, w, h);
}

/// The cell that an edge rule reads is a cell of the grid.
pub proof fn lemma_edge_source_in_grid(bound: Bound, dim: (usize, usize), i: int)
    requires
        valid_dim(dim),
        0 <= i,
        edge_rule_of(bound, dim, i) is Some,
    ensures
        edge_rule_of(bound, dim, i)->0.source < dim.0 * dim.1,
{
    let w = dim.0 as int;
    let h = dim.1 as int;
    let (x, y) = cell_pos(i, w);
    lemma_index_of_pos(i, w);
    if 1 <= x <= w - 2 {
        lemma_index_in_range(x, 1, w, h);
        lemma_index_in_range(x, h - 2, w, h);
    }
    if 1 <= y <= h - 2 {
        lemma_index_in_range(1, y, w, h);
        lemma_index_in_range(w - 2, y, w, h);
    }
}

/// The four corner rules write the four corners and read cells of the grid.
pub proof fn lemma_corner_positions(dim: (usize, usize))
    requires
        valid_dim(dim),
    ensures
        forall|k: int|
            0 <= k < 4 ==> {
                &&& is_corner(dim, (#[trigger] corner_rules_of(dim)[k]).target as int)
                &&& corner_rules_of(dim)[k].target < dim.0 * dim.1
                &&& corner_rules_of(dim)[k].along_row < dim.0 * dim.1
                &&& corner_rules_of(dim)[k].along_column < dim.0 * dim.1
            },
        dim.0 >= 3 && dim.1 >= 3 ==> forall|k: int|
            0 <= k < 4 ==> {
                &&& !is_corner(dim, (#[trigger] corner_rules_of(dim)[k]).along_row as int)
                &&& !is_corner(dim, corner_rules_of(dim)[k].along_column as int)
            },
{
    let w = dim.0 as int;
    let h = dim.1 as int;
    lemma_pos_of_index(1, 0, w);
    lemma_pos_of_index(0, 1, w);
    lemma_pos_of_index(1, h - 1, w);
    lemma_pos_of_index(0, h - 2, w);
    lemma_pos_of_index(w - 2, 0, w);
    lemma_pos_of_index(w - 1, 1, w);
    lemma_pos_of_index(w - 2, h - 1, w);
    lemma_pos_of_index(w - 1, h - 2, w);
    lemma_index_in_range(0, 0, w, h);
    lemma_index_in_range(1, 0, w, h);
    lemma_index_in_range(0, 1, w, h);
    lemma_index_in_range(0, h - 1, w, h);
    lemma_index_in_range(1, h - 1, w, h);
    lemma_index_in_range(0, h - 2, w, h);
    lemma_index_in_range(w - 1, 0, w, h);
    lemma_index_in_range(w - 2, 0, w, h);
    lemma_index_in_range(w - 1, 1, w, h);
    lemma_index_in_range(w - 1, h - 1, w, h);
    lemma_index_in_range(w - 2, h - 1, w, h);
    lemma_index_in_range(w - 1, h - 2, w, h);
    lemma_pos_of_index(0, 0, w);
    lemma_pos_of_index(0, h - 1, w);
    lemma_pos_of_index(w - 1, 0, w);
    lemma_pos_of_index(w - 1, h - 1, w);
}

/// In a grid at least three rows high, the boundary pass leaves every
/// cell of the top and of the bottom row that is no corner equal to the
/// wall value of what the cell one row inward holds after the pass, with
/// the sign turned exactly for the horizontal velocity component: there
/// each outermost row is minus one times the row next to it.
pub proof fn lemma_rows_mirrored<T, E: Fn(Operation<T>) -> T>(
    bound: Bound,
    dim: (usize, usize),
    field: Seq<T>,
    eval: &E,
    x: int,
)
    requires
        valid_dim(dim),
        dim.1 >= 3,
        field.len() == dim.0 * dim.1,
        1 <= x <= dim.0 - 2,
    ensures
        ({
            let done = enforced(bound, dim, field, eval);
            let w = dim.0 as int;
            let h = dim.1 as int;
            &&& done[cell_index(x, 0, w)] == wall_value(
                eval,
                bound == Bound::X,
                done[cell_index(x, 1, w)],
            )
            &&& done[cell_index(x, h - 1, w)] == wall_value(
                eval,
                bound == Bound::X,
                done[cell_index(x, h - 2, w)],
            )
        }),
{
    let w = dim.0 as int;
    let h = dim.1 as int;
    lemma_index_in_range(x, 0, w, h);
    lemma_index_in_range(x, 1, w, h);
    lemma_index_in_range(x, h - 1, w, h);
    lemma_index_in_range(x, h - 2, w, h);
    lemma_pos_of_index(x, 0, w);
    lemma_pos_of_index(x, 1, w);
    lemma_pos_of_index(x, h - 1, w);
    lemma_pos_of_index(x, h - 2, w);
    lemma_enforced_cells(bound, dim, field, eval, cell_index(x, 0, w));
    lemma_enforced_cells(bound, dim, field, eval, cell_index(x, 1, w));
    lemma_enforced_cells(bound, dim, field, eval, cell_index(x, h - 1, w));
    lemma_enforced_cells(bound, dim, field, eval, cell_index(x, h - 2, w));
}

/// In a grid at least three columns wide, the boundary pass leaves every
/// cell of the first and of the last column that is no corner equal to the
/// wall value of what the cell one column inward holds after the pass,
/// with the sign turned exactly for the vertical velocity component.
pub proof fn lemma_columns_mirrored<T, E: Fn(Operation<T>) -> T>(
    bound: Bound,
    dim: (usize, usize),
    field: Seq<T>,
    eval: &E,
    y: int,
)
    requires
        valid_dim(dim),
        dim.0 >= 3,
        field.len() == dim.0 * dim.1,
        1 <= y <= dim.1 - 2,
    ensures
        ({
            let done = enforced(bound, dim, field, eval);
            let w = dim.0 as int;
            &&& done[cell_index(0, y, w)] == wall_value(
                eval,
                bound == Bound::Y,
                done[cell_index(1, y, w)],
            )
            &&& done[cell_index(w - 1, y, w)] == wall_value(
                eval,
                bound == Bound::Y,
                done[cell_index(w - 2, y, w)],
            )
        }),
{
    let w = dim.0 as int;
    let h = dim.1 as int;
    lemma_index_in_range(0, y, w, h);
    lemma_index_in_range(1, y, w, h);
    lemma_index_in_range(w - 1, y, w, h);
    lemma_index_in_range(w - 2, y, w, h);
    lemma_pos_of_index(0, y, w);
    lemma_pos_of_index(1, y, w);
    lemma_pos_of_index(w - 1, y, w);
    lemma_pos_of_index(w - 2, y, w);
    lemma_enforced_cells(bound, dim, field, eval, cell_index(0, y, w));
    lemma_enforced_cells(bound, dim, field, eval, cell_index(1, y, w));
    lemma_enforced_cells(bound, dim, field, eval, cell_index(w - 1, y, w));
    lemma_enforced_cells(bound, dim, field, eval, cell_index(w - 2, y, w));
}

/// In a grid with at least three cells along each axis, the boundary pass
/// leaves every corner equal to the corner value, the mean, of the two
/// wall cells beside it, as the first half of the pass has just set them
/// and as they still stand when the pass is over.
pub proof fn lemma_corners_are_means<T, E: Fn(Operation<T>) -> T>(
    bound: Bound,
    dim: (usize, usize),
    field: Seq<T>,
    eval: &E,
    k: int,
)
    requires
        valid_dim(dim),
        dim.0 >= 3,
        dim.1 >= 3,
        field.len() == dim.0 * dim.1,
        0 <= k < 4,
    ensures
        ({
            let done = enforced(bound, dim, field, eval);
            let walls = after_edges(bound, dim, field, eval);
            let rule = corner_rules_of(dim)[k];
            &&& done[rule.target as int] == corner_value(
                eval,
                done[rule.along_row as int],
                done[rule.along_column as int],
            )
            &&& done[rule.along_row as int] == walls[rule.along_row as int]
            &&& done[rule.along_column as int] == walls[rule.along_column as int]
        }),
{
    let w = dim.0 as int;
    let h = dim.1 as int;
    let rules = corner_rules_of(dim);
    let rule = rules[k];
    let walls = after_edges(bound, dim, field, eval);
    lemma_corner_positions(dim);
    lemma_enforced_cells(bound, dim, field, eval, rule.along_row as int);
    lemma_enforced_cells(bound, dim, field, eval, rule.along_column as int);
    lemma_pos_of_index(0, 0, w);
    lemma_pos_of_index(0, h - 1, w);
    lemma_pos_of_index(w - 1, 0, w);
    lemma_pos_of_index(w - 1, h - 1, w);
    lemma_index_in_range(0, 0, w, h);
    lemma_index_in_range(0, h - 1, w, h);
    lemma_index_in_range(w - 1, 0, w, h);
    lemma_index_in_range(w - 1, h - 1, w, h);
    assert(cell_pos(rules[0].target as int, w) == (0int, 0int));
    assert(cell_pos(rules[1].target as int, w) == (0int, h - 1));
    assert(cell_pos(rules[2].target as int, w) == (w - 1, 0int));
    assert(cell_pos(rules[3].target as int, w) == (w - 1, h - 1));
    let first = after_corner(rules[0], walls, eval);
    let second = after_corner(rules[1], first, eval);
    let third = after_corner(rules[2], second, eval);
    assert(first[rule.along_row as int] == walls[rule.along_row as int]);
    assert(second[rule.along_row as int] == walls[rule.along_row as int]);
    assert(third[rule.along_row as int] == walls[rule.along_row as int]);
    assert(first[rule.along_column as int] == walls[rule.along_column as int]);
    assert(second[rule.along_column as int] == walls[rule.along_column as int]);
    assert(third[rule.along_column as int] == walls[rule.along_column as int]);
}

impl<T: Copy + Send + Sync> FlowBox<T> {
    /// Rewrites the walls of `vals`: every wall cell that is no corner from
    /// its inward neighbour as `vals` stood on entry, then the four corners
    /// in their order, each from its two neighbours as they stand by then.
    pub fn set_bound<E: Fn(Operation<T>) -> T + Sync + Send>(
        bound: &Bound,
        vals: &mut Vec<T>,
        dim: &(usize, usize),
        eval: &E,
    )
        requires
            valid_dim(*dim),
            old(vals)@.len() == dim.0 * dim.1,
            answers(eval),
        ensures
            final(vals)@ == enforced(*bound, *dim, old(vals)@, eval),
            final(vals)@.len() == old(vals)@.len(),
    {
        let cells: usize = vals.len();
        let ghost before = vals@;
        let snapshot: &Vec<T> = &*vals;
        let kept: T = number(eval, 1);
        let turned: T = opposite(eval, kept);
        let ghost wanted = after_edges(*bound, *dim, before, eval);
        let walls: Vec<T> = par_collect(
            cells,
            |i: usize| -> (v: T)
                requires
                    i < cells,
                ensures
                    v == wanted[i as int],
                {
                    match Self::edge_rule(bound, &i, dim) {
                        Some(rule) => times(
                            eval,
                            if rule.negate {
                                turned
                            } else {
                                kept
                            },
                            snapshot[rule.source],
                        ),
                        None => snapshot[i],
                    }
                }
        );
        assert(walls@ =~= wanted);
        *vals = walls;
        let rules: Vec<CornerRule> = Self::corner_rules(dim);
        let halved: T = one_half(eval);
        let mut k: usize = 0;
        while k < 4
            invariant
                k <= 4,
                answers(eval),
                halved == half(eval),
                rules@ == corner_rules_of(*dim),
                vals@.len() == dim.0 * dim.1,
                forall|c: int|
                    0 <= c < 4 ==> {
                        &&& (#[trigger] rules@[c]).target < dim.0 * dim.1
                        &&& rules@[c].along_row < dim.0 * dim.1
                        &&& rules@[c].along_column < dim.0 * dim.1
                    },
                vals@ == corners_done(
                    rules@,
                    after_edges(*bound, *dim, before, eval),
                    eval,
                    k as int,
                ),
            decreases 4 - k,
        {
            let rule: CornerRule = rules[k];
            let both: T = plus(eval, vals[rule.along_row], vals[rule.along_column]);
            let value: T = times(eval, halved, both);
            vals.set(rule.target, value);
            k = k + 1;
        }
    }
}

impl<T> FlowBox<T> {
    /// The rule by which the boundary pass rewrites the cell at flat
    /// position `i`, if it is a wall cell other than a corner.
    pub fn edge_rule(bound: &Bound, i: &usize, dim: &(usize, usize)) -> (rule: Option<EdgeRule>)
        requires
            valid_dim(*dim),
        ensures
            rule == edge_rule_of(*bound, *dim, *i as int),
            rule is Some ==> rule->0.source < dim.0 * dim.1,
    {
        let w: usize = dim.0;
        let h: usize = dim.1;
        let x: usize = *i % w;
        let y: usize = *i / w;
        let turn_rows: bool = match bound {
            Bound::X => true,
            _ => false,
        };
        let turn_columns: bool = match bound {
            Bound::Y => true,
            _ => false,
        };
        if 1 <= x && x <= w - 2 && y == 0 {
            proof {
                lemma_index_in_range(x as int, 1, w as int, h as int);
            }
            Some(EdgeRule { source: x + w, negate: turn_rows })
        } else if 1 <= x && x <= w - 2 && y == h - 1 {
            proof {
                lemma_index_in_range(x as int, h - 2, w as int, h as int);
            }
            Some(EdgeRule { source: x + (h - 2) * w, negate: turn_rows })
        } else if 1 <= y && y <= h - 2 && x == 0 {
            proof {
                lemma_index_in_range(1, y as int, w as int, h as int);
            }
            Some(EdgeRule { source: 1 + y * w, negate: turn_columns })
        } else if 1 <= y && y <= h - 2 && x == w - 1 {
            proof {
                lemma_index_in_range(w - 2, y as int, w as int, h as int);
            }
            Some(EdgeRule { source: w - 2 + y * w, negate: turn_columns })
        } else {
            None
        }
    }

    /// The four corner rules of the boundary pass, in the order in which
    /// they are carried out.
    pub fn corner_rules(dim: &(usize, usize)) -> (rules: Vec<CornerRule>)
        requires
            valid_dim(*dim),
        ensures
            rules@ == corner_rules_of(*dim),
            forall|k: int|
                0 <= k < 4 ==> {
                    &&& (#[trigger] rules@[k]).target < dim.0 * dim.1
                    &&& rules@[k].along_row < dim.0 * dim.1
                    &&& rules@[k].along_column < dim.0 * dim.1
                },
    {
        let w: usize = dim.0;
        let h: usize = dim.1;
        proof {
            lemma_index_in_range(0, 0, w as int, h as int);
            lemma_index_in_range(1, 0, w as int, h as int);
            lemma_index_in_range(0, 1, w as int, h as int);
            lemma_index_in_range(0, h - 1, w as int, h as int);
            lemma_index_in_range(1, h - 1, w as int, h as int);
            lemma_index_in_range(0, h - 2, w as int, h as int);
            lemma_index_in_range(w - 1, 0, w as int, h as int);
            lemma_index_in_range(w - 2, 0, w as int, h as int);
            lemma_index_in_range(w - 1, 1, w as int, h as int);
            lemma_index_in_range(w - 1, h - 1, w as int, h as int);
            lemma_index_in_range(w - 2, h - 1, w as int, h as int);
            lemma_index_in_range(w - 1, h - 2, w as int, h as int);
        }
        let last_row: usize = (h - 1) * w;
        let mut rules: Vec<CornerRule> = Vec::new();
        rules.push(CornerRule { target: 0, along_row: 1, along_column: w });
        rules.push(
            CornerRule { target: last_row, along_row: 1 + last_row, along_column: (h - 2) * w },
        );
        rules.push(CornerRule { target: w - 1, along_row: w - 2, along_column: w - 1 + w });
        rules.push(
            CornerRule {
                target: w - 1 + last_row,
                along_row: w - 2 + last_row,
                along_column: w - 1 + (h - 2) * w,
            },
        );
        assert(rules@ =~= corner_rules_of(*dim));
        rules
    }
}

} // verus!
