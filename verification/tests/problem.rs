use papilo_rs::marshal::MarshalError;
use papilo_rs::problem::Problem;
use papilo_rs::value::RealValue;

fn rval(x: f64) -> RealValue {
    RealValue::from_bits(x.to_bits())
}

#[test]
fn fresh_problem_is_empty() {
    let p = Problem::new();
    assert_eq!(p.num_cols(), 0);
    assert_eq!(p.num_rows(), 0);
}

#[test]
fn add_col_returns_consecutive_indices() {
    let mut p = Problem::new();
    let a = p.add_col(rval(0.0), rval(1.0), false, rval(2.0), "a").unwrap();
    let b = p.add_col(rval(-1.0), rval(1.0), true, rval(0.5), "b").unwrap();
    let c = p.add_col(rval(1.5), rval(20.0), false, rval(10.0), "c").unwrap();
    assert_eq!(a, 0);
    assert_eq!(b, 1);
    assert_eq!(c, 2);
    assert_eq!(p.num_cols(), 3);
    assert_eq!(p.num_rows(), 0);
}

#[test]
fn add_col_stores_fields_exactly() {
    let mut p = Problem::new();
    p.add_col(rval(1.5), rval(20.0), true, rval(10.0), "x2").unwrap();
    let data = p.raw();
    assert_eq!(data.cols.len(), 1);
    let col = &data.cols[0];
    assert_eq!(f64::from_bits(col.lb.to_bits()), 1.5);
    assert_eq!(f64::from_bits(col.ub.to_bits()), 20.0);
    assert!(col.integer);
    assert_eq!(f64::from_bits(col.cost.to_bits()), 10.0);
    assert_eq!(col.name, "x2");
}

#[test]
fn add_col_rejects_embedded_nul() {
    let mut p = Problem::new();
    p.add_col(rval(0.0), rval(1.0), false, rval(0.0), "ok").unwrap();
    let r = p.add_col(rval(0.0), rval(1.0), false, rval(0.0), "bad\0name");
    assert_eq!(r, Err(MarshalError::EmbeddedNul));
    assert_eq!(p.num_cols(), 1);
    assert_eq!(p.raw().cols[0].name, "ok");
}

#[test]
fn add_row_returns_consecutive_indices() {
    let mut p = Problem::new();
    let x = p.add_col(rval(0.0), rval(1.0), false, rval(1.0), "x").unwrap();
    let y = p.add_col(rval(0.0), rval(1.0), false, rval(1.0), "y").unwrap();
    let r0 = p.add_row("r0", &[(x, rval(1.0))], rval(0.0), rval(1.0)).unwrap();
    let r1 = p.add_row("r1", &[(x, rval(2.0)), (y, rval(3.0))], rval(0.5), rval(2.0)).unwrap();
    assert_eq!(r0, 0);
    assert_eq!(r1, 1);
    assert_eq!(p.num_rows(), 2);
    assert_eq!(p.num_cols(), 2);
}

#[test]
fn add_row_stores_coefficients_exactly() {
    let mut p = Problem::new();
    let x = p.add_col(rval(1.0), rval(10.0), true, rval(10.0), "x1").unwrap();
    let y = p.add_col(rval(0.0), rval(5.0), false, rval(1.0), "y1").unwrap();
    p.add_row("r1", &[(x, rval(1.25)), (y, rval(-2.5))], rval(2.5), rval(f64::INFINITY)).unwrap();
    let row = &p.raw().rows[0];
    assert_eq!(row.name, "r1");
    assert_eq!(f64::from_bits(row.lhs.to_bits()), 2.5);
    assert_eq!(f64::from_bits(row.rhs.to_bits()), f64::INFINITY);
    let cx = row.coefficient(x).unwrap();
    assert_eq!(f64::from_bits(cx.to_bits()), 1.25);
    let cy = row.coefficient(y).unwrap();
    assert_eq!(f64::from_bits(cy.to_bits()), -2.5);
    assert!(row.coefficient(17).is_none());
}

#[test]
fn add_row_rejects_embedded_nul() {
    let mut p = Problem::new();
    let x = p.add_col(rval(0.0), rval(1.0), false, rval(0.0), "x").unwrap();
    let r = p.add_row("r\0w", &[(x, rval(1.0))], rval(0.0), rval(1.0));
    assert_eq!(r, Err(MarshalError::EmbeddedNul));
    assert_eq!(p.num_rows(), 0);
}
