use vstd::prelude::*;
use vstd::string::StringSliceAdditionalSpecFns;
use crate::marshal::{MarshalError, marshals, nul_free};
use crate::value::RealValue;

verus! {

/// Mathematical image of one column: the bit encodings of its bounds and
/// cost, its integrality flag, and its display name.
#[verifier::ext_equal]
pub struct ColumnModel {
    pub lb: u64,
    pub ub: u64,
    pub integer: bool,
    pub cost: u64,
    pub name: Seq<char>,
}

/// One decision variable of the problem.
#[derive(Debug)]
pub struct Column {
    pub lb: RealValue,
    pub ub: RealValue,
    pub integer: bool,
    pub cost: RealValue,
    pub name: String,
}

impl View for Column {
    type V = ColumnModel;

    open spec fn view(&self) -> ColumnModel {
        ColumnModel {
            lb: self.lb.bits,
            ub: self.ub.bits,
            integer: self.integer,
            cost: self.cost.bits,
            name: self.name@,
        }
    }
}

/// Mathematical image of one row: its name, the bit encodings of its two
/// sides, and its nonzero coefficients keyed by column index, in the
/// order they were supplied.
#[verifier::ext_equal]
pub struct RowModel {
    pub name: Seq<char>,
    pub lhs: u64,
    pub rhs: u64,
    pub coeffs: Seq<(usize, u64)>,
}

/// One linear constraint of the problem.
#[derive(Debug)]
pub struct Row {
    pub name: String,
    pub lhs: RealValue,
    pub rhs: RealValue,
    pub coeffs: Vec<(usize, RealValue)>,
}

impl View for Row {
    type V = RowModel;

    open spec fn view(&self) -> RowModel {
        RowModel {
            name: self.name@,
            lhs: self.lhs.bits,
            rhs: self.rhs.bits,
            coeffs: self.coeffs@.map_values(|cv: (usize, RealValue)| (cv.0, cv.1.bits)),
        }
    }
}

/// Mathematical image of a whole problem: its columns and rows, each in
/// creation order, so that a column's or row's index is its position.
#[verifier::ext_equal]
pub struct ProblemModel {
    pub cols: Seq<ColumnModel>,
    pub rows: Seq<RowModel>,
}

/// The complete description of an optimization problem: everything the
/// native layer needs in order to realize it.
#[derive(Debug)]
pub struct ProblemData {
    pub cols: Vec<Column>,
    pub rows: Vec<Row>,
}

impl View for ProblemData {
    type V = ProblemModel;

    open spec fn view(&self) -> ProblemModel {
        ProblemModel {
            cols: self.cols@.map_values(|c: Column| c@),
            rows: self.rows@.map_values(|r: Row| r@),
        }
    }
}

/// The owner of one problem description.
///
/// The value is move-only: loading it into a solver consumes it, so the
/// original binding can never again name the transferred resource, and
/// no two owners can share one description.
#[derive(Debug)]
pub struct Problem {
    data: ProblemData,
}

impl View for Problem {
    type V = ProblemModel;

    closed spec fn view(&self) -> ProblemModel {
        self.data@
    }
}

impl Problem {
    /// The underlying description: the value that the native layer
    /// realizes when the problem is created and filled.
    pub fn raw(&self) -> (r: &ProblemData)
        ensures
            r@ == self@,
    {
        &self.data
    }

    /// A fresh problem with no columns and no rows. The fixed creation
    /// defaults (infinite default upper bound, internal name, capacity
    /// hints) are part of the realization plan, not of this state.
    pub fn new() -> (p: Problem)
        ensures
            p@.cols.len() == 0,
            p@.rows.len() == 0,
    {
        Problem { data: ProblemData { cols: Vec::new(), rows: Vec::new() } }
    }

    /// Appends a column and returns its index: 0-based, in creation
    /// order, stable for the lifetime of the problem.
    ///
    /// The name must marshal into a native string; a name holding an
    /// embedded terminator is rejected before any state changes.
    pub fn add_col(&mut self, lb: RealValue, ub: RealValue, integer: bool, cost: RealValue, name: &str)
        -> (r: Result<usize, MarshalError>)
        ensures
            r is Ok <==> nul_free(name.spec_bytes()),
            r is Ok ==> r->Ok_0 == old(self)@.cols.len(),
            r is Ok ==> final(self)@.cols == old(self)@.cols.push(
                (ColumnModel {
                    lb: lb.bits,
                    ub: ub.bits,
                    integer: integer,
                    cost: cost.bits,
                    name: name@,
                }),
            ),
            r is Ok ==> final(self)@.rows == old(self)@.rows,
            r is Err ==> *final(self) == *old(self)
                && r == Err::<usize, MarshalError>(MarshalError::EmbeddedNul),
    {
        if !marshals(name) {
            return Err(MarshalError::EmbeddedNul);
        }
        let idx = self.data.cols.len();
        let col = Column { lb, ub, integer, cost, name: name.to_owned() };
        self.data.cols.push(col);
        proof {
            assert(self@.cols =~= old(self)@.cols.push(
                ColumnModel {
                    lb: lb.bits,
                    ub: ub.bits,
                    integer: integer,
                    cost: cost.bits,
                    name: name@,
                },
            ));
            assert(self@.rows =~= old(self)@.rows);
        }
        Ok(idx)
    }

    /// Appends a row and returns its index: 0-based, in creation order.
    /// The row's sides and name are fixed first; its nonzero
    /// coefficients are stored exactly as supplied, in the given order.
    ///
    /// Every referenced column index must already exist: the native
    /// layer does not validate this, so it is a caller contract here,
    /// not a silent check.
    ///
    /// The name must marshal into a native string; a name holding an
    /// embedded terminator is rejected before any state changes.
    pub fn add_row(&mut self, name: &str, coefficients: &[(usize, RealValue)], lhs: RealValue, rhs: RealValue)
        -> (r: Result<usize, MarshalError>)
        requires
            forall|i: int| 0 <= i < coefficients@.len()
                ==> (#[trigger] coefficients@[i]).0 < old(self)@.cols.len(),
        ensures
            r is Ok <==> nul_free(name.spec_bytes()),
            r is Ok ==> r->Ok_0 == old(self)@.rows.len(),
            r is Ok ==> final(self)@.rows == old(self)@.rows.push(
                (RowModel {
                    name: name@,
                    lhs: lhs.bits,
                    rhs: rhs.bits,
                    coeffs: coefficients@.map_values(|cv: (usize, RealValue)| (cv.0, cv.1.bits)),
                }),
            ),
            r is Ok ==> final(self)@.cols == old(self)@.cols,
            r is Err ==> *final(self) == *old(self)
                && r == Err::<usize, MarshalError>(MarshalError::EmbeddedNul),
    {
        if !marshals(name) {
            return Err(MarshalError::EmbeddedNul);
        }
        let idx = self.data.rows.len();
        let mut coeffs: Vec<(usize, RealValue)> = Vec::new();
        let n = coefficients.len();
        let mut i: usize = 0;
        while i < n
            invariant
                n == coefficients@.len(),
                0 <= i <= n,
                coeffs@ == coefficients@.take(i as int),
            decreases n - i,
        {
            coeffs.push(coefficients[i]);
            proof {
                assert(coeffs@ =~= coefficients@.take(i as int + 1));
            }
            i += 1;
        }
        proof {
            assert(coeffs@ =~= coefficients@);
        }
        let row = Row { name: name.to_owned(), lhs, rhs, coeffs };
        self.data.rows.push(row);
        proof {
            assert(self@.rows =~= old(self)@.rows.push(
                RowModel {
                    name: name@,
                    lhs: lhs.bits,
                    rhs: rhs.bits,
                    coeffs: coefficients@.map_values(|cv: (usize, RealValue)| (cv.0, cv.1.bits)),
                },
            ));
            assert(self@.cols =~= old(self)@.cols);
        }
        Ok(idx)
    }

    /// How many columns the problem holds.
    pub fn num_cols(&self) -> (n: usize)
        ensures
            n == self@.cols.len(),
    {
        self.data.cols.len()
    }

    /// How many rows the problem holds.
    pub fn num_rows(&self) -> (n: usize)
        ensures
            n == self@.rows.len(),
    {
        self.data.rows.len()
    }
}

/// The coefficient a row stores for the given column: the first entry
/// with that key, or nothing when the column does not occur.
pub open spec fn coeff_of(coeffs: Seq<(usize, u64)>, col: usize) -> Option<u64>
    decreases coeffs.len(),
{
    if coeffs.len() == 0 {
        None
    } else if coeffs[0].0 == col {
        Some(coeffs[0].1)
    } else {
        coeff_of(coeffs.drop_first(), col)
    }
}

/// Whether each column index occurs at most once among the coefficients.
pub open spec fn unique_keys(coeffs: Seq<(usize, u64)>) -> bool {
    forall|i: int, j: int| 0 <= i < j < coeffs.len()
        ==> (#[trigger] coeffs[i]).0 != (#[trigger] coeffs[j]).0
}

impl Row {
    /// The coefficient this row stores for the given column.
    pub fn coefficient(&self, col: usize) -> (r: Option<RealValue>)
        ensures
            (r is Some) == (coeff_of(self@.coeffs, col) is Some),
            r matches Some(v) ==> coeff_of(self@.coeffs, col) == Some(v.bits),
    {
        let n = self.coeffs.len();
        let mut i: usize = 0;
        proof {
            assert(self@.coeffs.skip(0) =~= self@.coeffs);
        }
        while i < n
            invariant
                n == self.coeffs@.len(),
                0 <= i <= n,
                coeff_of(self@.coeffs, col) == coeff_of(self@.coeffs.skip(i as int), col),
            decreases n - i,
        {
            proof {
                assert(self@.coeffs.skip(i as int)[0] == self@.coeffs[i as int]);
                assert(self@.coeffs.skip(i as int).drop_first() =~= self@.coeffs.skip(i as int + 1));
            }
            if self.coeffs[i].0 == col {
                return Some(self.coeffs[i].1);
            }
            i += 1;
        }
        proof {
            assert(self@.coeffs.skip(n as int) =~= Seq::<(usize, u64)>::empty());
        }
        None
    }
}

/// Law: in a row whose coefficient keys are unique, the stored
/// coefficient of each referenced column is exactly the supplied value.
pub proof fn lemma_row_coefficient_exact(coeffs: Seq<(usize, u64)>, i: int)
    requires
        unique_keys(coeffs),
        0 <= i < coeffs.len(),
    ensures
        coeff_of(coeffs, coeffs[i].0) == Some(coeffs[i].1),
    decreases coeffs.len(),
{
    if i == 0 {
    } else {
        assert(coeffs[0].0 != coeffs[i].0);
        assert(unique_keys(coeffs.drop_first())) by {
            assert(forall|a: int, b: int| 0 <= a < b < coeffs.drop_first().len()
                ==> (#[trigger] coeffs.drop_first()[a]).0 != (#[trigger] coeffs.drop_first()[b]).0)
            by {
                assert(forall|a: int| 0 <= a < coeffs.drop_first().len()
                    ==> #[trigger] coeffs.drop_first()[a] == coeffs[a + 1]);
            }
        }
        lemma_row_coefficient_exact(coeffs.drop_first(), i - 1);
        assert(coeffs.drop_first()[i - 1] == coeffs[i]);
    }
}

/// Law: a row added from `coefficients` whose column keys are unique
/// stores, for each supplied pair, exactly the supplied value: looking
/// the column up in the stored row yields the coefficient's encoding
/// unchanged.
pub proof fn lemma_added_row_coefficient_exact(coefficients: Seq<(usize, RealValue)>, i: int)
    requires
        forall|a: int, b: int| 0 <= a < b < coefficients.len()
            ==> (#[trigger] coefficients[a]).0 != (#[trigger] coefficients[b]).0,
        0 <= i < coefficients.len(),
    ensures
        coeff_of(
            coefficients.map_values(|cv: (usize, RealValue)| (cv.0, cv.1.bits)),
            coefficients[i].0,
        ) == Some(coefficients[i].1.bits),
{
    let mapped = coefficients.map_values(|cv: (usize, RealValue)| (cv.0, cv.1.bits));
    assert(forall|a: int| 0 <= a < mapped.len()
        ==> #[trigger] mapped[a] == (coefficients[a].0, coefficients[a].1.bits));
    assert(unique_keys(mapped));
    lemma_row_coefficient_exact(mapped, i);
}

/// Law: additions return consecutive indices starting at 0, in call
/// order. The states are the column (or row) sequences before each call
/// and after the last one; each call appends exactly one element and
/// returns the count it saw, as `add_col` and `add_row` ensure. Then the
/// k-th call, counted from 0 on an initially empty problem, returns k.
pub proof fn lemma_indices_consecutive<T>(states: Seq<Seq<T>>, results: Seq<int>, k: int)
    requires
        states.len() == results.len() + 1,
        states[0].len() == 0,
        forall|i: int| 0 <= i < results.len()
            ==> (#[trigger] states[i + 1]).len() == states[i].len() + 1,
        forall|i: int| 0 <= i < results.len() ==> #[trigger] results[i] == states[i].len(),
        0 <= k < results.len(),
    ensures
        results[k] == k,
    decreases k,
{
    if k == 0 {
    } else {
        lemma_indices_consecutive(states, results, k - 1);
        assert(states[k].len() == states[k - 1].len() + 1);
    }
}

} // verus!
