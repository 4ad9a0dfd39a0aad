use vstd::prelude::*;
use crate::problem::{ColumnModel, ProblemData, ProblemModel, RowModel};
use crate::value::{RealValue, INFINITY_BITS};

verus! {

broadcast use vstd::prelude::Seq::lemma_push_map_commute, vstd::prelude::Seq::lemma_map_take_succ;

/// Expected number of rows, reserved when the native problem is created.
/// A performance hint only, never a hard limit.
pub const ROW_CAPACITY_HINT: usize = 1000;

/// Expected number of columns, reserved at creation. A hint only.
pub const COL_CAPACITY_HINT: usize = 10;

/// Expected number of nonzeros per row, reserved at creation. A hint only.
pub const NONZERO_CAPACITY_HINT: usize = 10;

/// The fixed internal name every native problem is created with.
pub fn problem_name() -> (r: &'static str)
    ensures
        r@ == "papilo-rs"@,
{
    "papilo-rs"
}

/// Mathematical image of one native construction call.
#[verifier::ext_equal]
pub enum CallModel {
    CreateProblem {
        default_upper_bound: u64,
        name: Seq<char>,
        row_hint: int,
        col_hint: int,
        nz_hint: int,
    },
    AddColumn { lb: u64, ub: u64, integer: bool, cost: u64, name: Seq<char> },
    AddRow { lhs: u64, rhs: u64, name: Seq<char> },
    AddNonzero { row: int, col: int, coeff: u64 },
}

/// One native construction call, with the exact arguments to hand over.
/// The unverified shell performs each call in sequence; nothing else
/// about the realization is left to it.
#[derive(Debug, PartialEq)]
pub enum NativeCall {
    /// Create the problem resource with the fixed defaults.
    CreateProblem {
        default_upper_bound: RealValue,
        name: String,
        row_hint: usize,
        col_hint: usize,
        nz_hint: usize,
    },
    /// Append one column.
    AddColumn { lb: RealValue, ub: RealValue, integer: bool, cost: RealValue, name: String },
    /// Append one row, fixing its sides and name.
    AddRow { lhs: RealValue, rhs: RealValue, name: String },
    /// Add one nonzero coefficient to an existing row.
    AddNonzero { row: usize, col: usize, coeff: RealValue },
}

impl View for NativeCall {
    type V = CallModel;

    open spec fn view(&self) -> CallModel {
        match self {
            NativeCall::CreateProblem { default_upper_bound, name, row_hint, col_hint, nz_hint } => CallModel::CreateProblem {
                default_upper_bound: default_upper_bound.bits,
                name: name@,
                row_hint: row_hint as int,
                col_hint: col_hint as int,
                nz_hint: nz_hint as int,
            },
            NativeCall::AddColumn { lb, ub, integer, cost, name } => CallModel::AddColumn {
                lb: lb.bits,
                ub: ub.bits,
                integer: *integer,
                cost: cost.bits,
                name: name@,
            },
            NativeCall::AddRow { lhs, rhs, name } => CallModel::AddRow {
                lhs: lhs.bits,
                rhs: rhs.bits,
                name: name@,
            },
            NativeCall::AddNonzero { row, col, coeff } => CallModel::AddNonzero {
                row: row as int,
                col: col as int,
                coeff: coeff.bits,
            },
        }
    }
}

/// The creation call: infinite default upper bound, the fixed internal
/// name, and the fixed capacity hints.
pub open spec fn create_call() -> CallModel {
    CallModel::CreateProblem {
        default_upper_bound: INFINITY_BITS,
        name: "papilo-rs"@,
        row_hint: ROW_CAPACITY_HINT as int,
        col_hint: COL_CAPACITY_HINT as int,
        nz_hint: NONZERO_CAPACITY_HINT as int,
    }
}

/// The call that appends column `c`.
pub open spec fn col_call(c: ColumnModel) -> CallModel {
    CallModel::AddColumn { lb: c.lb, ub: c.ub, integer: c.integer, cost: c.cost, name: c.name }
}

/// The call that adds the coefficient `cv` to row `row`.
pub open spec fn nonzero_call(row: int, cv: (usize, u64)) -> CallModel {
    CallModel::AddNonzero { row: row, col: cv.0 as int, coeff: cv.1 }
}

/// The calls that realize row `r` at index `row`: the row itself first,
/// then each of its nonzeros, in stored order.
pub open spec fn row_calls(r: RowModel, row: int) -> Seq<CallModel> {
    seq![CallModel::AddRow { lhs: r.lhs, rhs: r.rhs, name: r.name }] + r.coeffs.map_values(
        |cv: (usize, u64)| nonzero_call(row, cv),
    )
}

/// The calls that realize `rows`, the first of which has index `first`.
pub open spec fn rows_calls(rows: Seq<RowModel>, first: int) -> Seq<CallModel>
    decreases rows.len(),
{
    if rows.len() == 0 {
        Seq::empty()
    } else {
        row_calls(rows[0], first) + rows_calls(rows.drop_first(), first + 1)
    }
}

/// The exact native call sequence that realizes `p`: creation with the
/// fixed defaults, then every column in creation order, then every row
/// in creation order, each immediately followed by its nonzeros.
pub open spec fn plan_of(p: ProblemModel) -> Seq<CallModel> {
    seq![create_call()] + p.cols.map_values(|c: ColumnModel| col_call(c)) + rows_calls(p.rows, 0)
}

/// Law: nothing is lost or reordered on the way to the engine — the
/// plan opens with the creation call, and the call for the column with
/// index `i` stands immediately after it, at position `1 + i`, carrying
/// that column's attributes unchanged.
pub proof fn lemma_plan_places_each_column(p: ProblemModel, i: int)
    requires
        0 <= i < p.cols.len(),
    ensures
        plan_of(p)[0] == create_call(),
        plan_of(p)[1 + i] == col_call(p.cols[i]),
{
    let cols = p.cols.map_values(|c: ColumnModel| col_call(c));
    assert(plan_of(p)[0] == create_call());
    assert(plan_of(p)[1 + i] == cols[i]);
}

proof fn lemma_rows_calls_snoc(rows: Seq<RowModel>, k: int, first: int)
    requires
        0 <= k < rows.len(),
    ensures
        rows_calls(rows.take(k + 1), first) =~~= rows_calls(rows.take(k), first) + row_calls(
            rows[k],
            first + k,
        ),
    decreases k,
{
    if k == 0 {
        assert(rows.take(1).drop_first() =~~= Seq::<RowModel>::empty());
        assert(rows.take(0) =~~= Seq::<RowModel>::empty());
        assert(rows.take(1)[0] == rows[0]);
        assert(rows_calls(rows.take(1), first) == row_calls(rows.take(1)[0], first) + rows_calls(
            rows.take(1).drop_first(),
            first + 1,
        ));
        assert(rows_calls(Seq::<RowModel>::empty(), first + 1) =~~= Seq::<CallModel>::empty());
        assert(rows_calls(rows.take(0), first) =~~= Seq::<CallModel>::empty());
        assert(rows_calls(rows.take(1), first) =~~= rows_calls(rows.take(0), first) + row_calls(
            rows[0],
            first,
        ));
    } else {
        lemma_rows_calls_snoc(rows.drop_first(), k - 1, first + 1);
        assert(rows.take(k + 1).drop_first() =~~= rows.drop_first().take(k));
        assert(rows.take(k).drop_first() =~~= rows.drop_first().take(k - 1));
        assert(rows.take(k + 1)[0] == rows[0]);
        assert(rows.take(k)[0] == rows[0]);
        assert(rows.drop_first()[k - 1] == rows[k]);
        assert(rows_calls(rows.take(k + 1), first) == row_calls(rows[0], first) + rows_calls(
            rows.drop_first().take(k),
            first + 1,
        ));
        assert(rows_calls(rows.take(k), first) == row_calls(rows[0], first) + rows_calls(
            rows.drop_first().take(k - 1),
            first + 1,
        ));
        assert(rows_calls(rows.drop_first().take(k), first + 1) == rows_calls(
            rows.drop_first().take(k - 1),
            first + 1,
        ) + row_calls(rows[k], first + k));
        assert(row_calls(rows[0], first) + (rows_calls(rows.drop_first().take(k - 1), first + 1)
            + row_calls(rows[k], first + k)) =~~= (row_calls(rows[0], first) + rows_calls(
            rows.drop_first().take(k - 1),
            first + 1,
        )) + row_calls(rows[k], first + k));
    }
}

/// Computes the exact call sequence `plan_of` asks for.
pub fn build_plan(p: &ProblemData) -> (r: Vec<NativeCall>)
    ensures
        r@.map_values(|c: NativeCall| c@) == plan_of(p@),
{
    let mut plan: Vec<NativeCall> = Vec::new();
    plan.push(
        NativeCall::CreateProblem {
            default_upper_bound: RealValue::infinity(),
            name: problem_name().to_owned(),
            row_hint: ROW_CAPACITY_HINT,
            col_hint: COL_CAPACITY_HINT,
            nz_hint: NONZERO_CAPACITY_HINT,
        },
    );
    proof {
        assert(plan@.map_values(|c: NativeCall| c@) =~~= seq![create_call()]);
    }
    let ncols = p.cols.len();
    let mut i: usize = 0;
    while i < ncols
        invariant
            ncols == p.cols@.len(),
            0 <= i <= ncols,
            plan@.map_values(|c: NativeCall| c@) =~~= seq![create_call()] + p@.cols.take(
                i as int,
            ).map_values(|c: ColumnModel| col_call(c)),
        decreases ncols - i,
    {
        let c = &p.cols[i];
        plan.push(
            NativeCall::AddColumn {
                lb: c.lb,
                ub: c.ub,
                integer: c.integer,
                cost: c.cost,
                name: c.name.clone(),
            },
        );
        proof {
            assert(p@.cols[i as int] == p.cols@[i as int]@);
            assert(plan@.map_values(|c: NativeCall| c@) =~~= seq![create_call()] + p@.cols.take(
                i as int + 1,
            ).map_values(|c: ColumnModel| col_call(c)));
        }
        i += 1;
    }
    proof {
        assert(p@.cols.take(ncols as int) =~~= p@.cols);
        assert(rows_calls(p@.rows.take(0), 0) =~~= Seq::<CallModel>::empty());
        assert(plan@.map_values(|c: NativeCall| c@) =~~= seq![create_call()]
            + p@.cols.map_values(|c: ColumnModel| col_call(c)) + rows_calls(p@.rows.take(0), 0));
    }
    let nrows = p.rows.len();
    let mut k: usize = 0;
    while k < nrows
        invariant
            ncols == p.cols@.len(),
            nrows == p.rows@.len(),
            0 <= k <= nrows,
            plan@.map_values(|c: NativeCall| c@) =~~= seq![create_call()] + p@.cols.map_values(
                |c: ColumnModel| col_call(c),
            ) + rows_calls(p@.rows.take(k as int), 0),
        decreases nrows - k,
    {
        let row = &p.rows[k];
        plan.push(NativeCall::AddRow { lhs: row.lhs, rhs: row.rhs, name: row.name.clone() });
        proof {
            assert(p@.rows[k as int] == p.rows@[k as int]@);
            assert(plan@.map_values(|c: NativeCall| c@) =~~= (seq![create_call()]
                + p@.cols.map_values(|c: ColumnModel| col_call(c)) + rows_calls(
                p@.rows.take(k as int),
                0,
            )) + seq![CallModel::AddRow {
                lhs: p@.rows[k as int].lhs,
                rhs: p@.rows[k as int].rhs,
                name: p@.rows[k as int].name,
            }] + p@.rows[k as int].coeffs.take(0).map_values(
                |cv: (usize, u64)| nonzero_call(k as int, cv),
            ));
        }
        let nnz = row.coeffs.len();
        let mut j: usize = 0;
        while j < nnz
            invariant
                nrows == p.rows@.len(),
                0 <= k < nrows,
                row == &p.rows@[k as int],
                nnz == row.coeffs@.len(),
                0 <= j <= nnz,
                plan@.map_values(|c: NativeCall| c@) =~~= (seq![create_call()] + p@.cols.map_values(
                    |c: ColumnModel| col_call(c),
                ) + rows_calls(p@.rows.take(k as int), 0)) + seq![CallModel::AddRow {
                    lhs: p@.rows[k as int].lhs,
                    rhs: p@.rows[k as int].rhs,
                    name: p@.rows[k as int].name,
                }] + p@.rows[k as int].coeffs.take(j as int).map_values(
                    |cv: (usize, u64)| nonzero_call(k as int, cv),
                ),
            decreases nnz - j,
        {
            let cv = row.coeffs[j];
            plan.push(NativeCall::AddNonzero { row: k, col: cv.0, coeff: cv.1 });
            proof {
                assert(p@.rows[k as int] == p.rows@[k as int]@);
                assert(p@.rows[k as int].coeffs[j as int] == (row.coeffs@[j as int].0,
                    row.coeffs@[j as int].1.bits));
                assert(plan@.map_values(|c: NativeCall| c@) =~~= (seq![create_call()]
                    + p@.cols.map_values(|c: ColumnModel| col_call(c)) + rows_calls(
                    p@.rows.take(k as int),
                    0,
                )) + seq![CallModel::AddRow {
                    lhs: p@.rows[k as int].lhs,
                    rhs: p@.rows[k as int].rhs,
                    name: p@.rows[k as int].name,
                }] + p@.rows[k as int].coeffs.take(j as int + 1).map_values(
                    |cv: (usize, u64)| nonzero_call(k as int, cv),
                ));
            }
            j += 1;
        }
        proof {
            assert(p@.rows[k as int].coeffs.take(nnz as int) =~~= p@.rows[k as int].coeffs);
            lemma_rows_calls_snoc(p@.rows, k as int, 0);
            assert(rows_calls(p@.rows.take(k as int + 1), 0) =~~= rows_calls(
                p@.rows.take(k as int),
                0,
            ) + row_calls(p@.rows[k as int], k as int));
            assert(plan@.map_values(|c: NativeCall| c@) =~~= seq![create_call()]
                + p@.cols.map_values(|c: ColumnModel| col_call(c)) + rows_calls(
                p@.rows.take(k as int + 1),
                0,
            ));
        }
        k += 1;
    }
    proof {
        assert(p@.rows.take(nrows as int) =~~= p@.rows);
        assert(plan@.map_values(|c: NativeCall| c@) =~~= plan_of(p@));
    }
    plan
}

} // verus!
