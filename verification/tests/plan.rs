use papilo_rs::plan::{
    build_plan, problem_name, NativeCall, COL_CAPACITY_HINT, NONZERO_CAPACITY_HINT,
    ROW_CAPACITY_HINT,
};
use papilo_rs::problem::Problem;
use papilo_rs::solver::{SolveInfo, SolveResult, SOLVE_CODE_OPTIMAL};
use papilo_rs::value::{RealValue, INFINITY_BITS};

fn rval(x: f64) -> RealValue {
    RealValue::from_bits(x.to_bits())
}

fn create_call() -> NativeCall {
    NativeCall::CreateProblem {
        default_upper_bound: RealValue::from_bits(INFINITY_BITS),
        name: problem_name().to_string(),
        row_hint: ROW_CAPACITY_HINT,
        col_hint: COL_CAPACITY_HINT,
        nz_hint: NONZERO_CAPACITY_HINT,
    }
}

fn optimal(dualbound: f64, bestsol_obj: f64) -> SolveInfo {
    SolveInfo::new(
        rval(dualbound),
        rval(0.0),
        rval(0.0),
        rval(bestsol_obj),
        rval(0.0),
        rval(0.0),
        rval(0.0),
        SOLVE_CODE_OPTIMAL,
    )
}

#[test]
fn infinity_bits_encode_ieee_infinity() {
    assert_eq!(f64::from_bits(INFINITY_BITS), f64::INFINITY);
    assert_eq!(f64::from_bits(RealValue::infinity().to_bits()), f64::INFINITY);
}

#[test]
fn empty_problem_realizes_as_one_creation_call() {
    // Scenario: an empty problem and a default solver. The realization
    // is creation alone, with the fixed defaults; the engine then
    // reports an optimal solve with dual bound 0.0, which the layer
    // hands through unchanged.
    let p = Problem::new();
    let plan = build_plan(p.raw());
    assert_eq!(plan, vec![create_call()]);

    let res = optimal(0.0, 0.0);
    assert_eq!(res.solve_result(), SolveResult::Optimal);
    assert_eq!(f64::from_bits(res.dualbound().to_bits()), 0.0);
}

#[test]
fn one_continuous_column_realizes_exactly() {
    // Scenario: one continuous column with bounds [1.5, 20.0] and cost
    // 10.0, no rows; the engine reports a dual bound of 15.0.
    let mut p = Problem::new();
    let x = p.add_col(rval(1.5), rval(20.0), false, rval(10.0), "x2").unwrap();
    assert_eq!(x, 0);
    let plan = build_plan(p.raw());
    assert_eq!(
        plan,
        vec![
            create_call(),
            NativeCall::AddColumn {
                lb: rval(1.5),
                ub: rval(20.0),
                integer: false,
                cost: rval(10.0),
                name: "x2".to_string(),
            },
        ]
    );

    let res = optimal(15.0, 15.0);
    assert_eq!(f64::from_bits(res.dualbound().to_bits()), 15.0);
}

#[test]
fn one_integer_column_realizes_exactly() {
    // Scenario: one integer column with bounds [1.5, 10.0] and cost
    // 10.0; integrality lets the engine prove a dual bound of 20.0.
    let mut p = Problem::new();
    let x = p.add_col(rval(1.5), rval(10.0), true, rval(10.0), "x1").unwrap();
    assert_eq!(x, 0);
    let plan = build_plan(p.raw());
    assert_eq!(
        plan,
        vec![
            create_call(),
            NativeCall::AddColumn {
                lb: rval(1.5),
                ub: rval(10.0),
                integer: true,
                cost: rval(10.0),
                name: "x1".to_string(),
            },
        ]
    );

    let res = optimal(20.0, 20.0);
    assert_eq!(f64::from_bits(res.dualbound().to_bits()), 20.0);
}

#[test]
fn integer_column_with_row_realizes_exactly() {
    // Scenario: one integer column x in [1.0, 10.0] with cost 10.0 and
    // one row "r1": x >= 2.5 with an infinite right-hand side; the
    // engine reports an optimal solve with objective and dual bound
    // 30.0.
    let mut p = Problem::new();
    let x = p.add_col(rval(1.0), rval(10.0), true, rval(10.0), "x1").unwrap();
    let r = p.add_row("r1", &[(x, rval(1.0))], rval(2.5), rval(f64::INFINITY)).unwrap();
    assert_eq!(x, 0);
    assert_eq!(r, 0);
    let plan = build_plan(p.raw());
    assert_eq!(
        plan,
        vec![
            create_call(),
            NativeCall::AddColumn {
                lb: rval(1.0),
                ub: rval(10.0),
                integer: true,
                cost: rval(10.0),
                name: "x1".to_string(),
            },
            NativeCall::AddRow {
                lhs: rval(2.5),
                rhs: rval(f64::INFINITY),
                name: "r1".to_string(),
            },
            NativeCall::AddNonzero { row: 0, col: 0, coeff: rval(1.0) },
        ]
    );

    let res = optimal(30.0, 30.0);
    assert_eq!(res.solve_result(), SolveResult::Optimal);
    assert_eq!(f64::from_bits(res.best_solution_objective().to_bits()), 30.0);
    assert_eq!(f64::from_bits(res.dualbound().to_bits()), 30.0);
}

#[test]
fn rows_follow_all_columns_in_the_plan() {
    let mut p = Problem::new();
    let x = p.add_col(rval(0.0), rval(1.0), false, rval(1.0), "x").unwrap();
    p.add_row("r0", &[(x, rval(2.0))], rval(0.0), rval(1.0)).unwrap();
    let y = p.add_col(rval(0.0), rval(2.0), false, rval(1.0), "y").unwrap();
    p.add_row("r1", &[(x, rval(3.0)), (y, rval(4.0))], rval(0.0), rval(2.0)).unwrap();

    let plan = build_plan(p.raw());
    // Creation, both columns in creation order, then each row followed
    // by its own nonzeros, in stored order.
    assert_eq!(plan.len(), 8);
    assert!(matches!(plan[0], NativeCall::CreateProblem { .. }));
    assert!(matches!(plan[1], NativeCall::AddColumn { .. }));
    assert!(matches!(plan[2], NativeCall::AddColumn { .. }));
    assert!(matches!(plan[3], NativeCall::AddRow { .. }));
    assert_eq!(plan[4], NativeCall::AddNonzero { row: 0, col: 0, coeff: rval(2.0) });
    assert!(matches!(plan[5], NativeCall::AddRow { .. }));
    assert_eq!(plan[6], NativeCall::AddNonzero { row: 1, col: 0, coeff: rval(3.0) });
    assert_eq!(plan[7], NativeCall::AddNonzero { row: 1, col: 1, coeff: rval(4.0) });
}
