use tokamak_equilibria::method::{Method, Method2d};
use tokamak_equilibria::EqError;

#[test]
fn method_names_ignore_case() {
    assert_eq!(Method::from_name("Linear").unwrap(), Method::Linear);
    assert_eq!(Method::from_name("cubic").unwrap(), Method::Cubic);
    assert_eq!(Method::from_name("Cubic").unwrap(), Method::Cubic);
    assert_eq!(Method::from_name("CubicPeriodic").unwrap(), Method::CubicPeriodic);
    assert_eq!(Method::from_name("AKIMA").unwrap(), Method::Akima);
    assert_eq!(Method::from_name("akimaPeriodic").unwrap(), Method::AkimaPeriodic);
    assert_eq!(Method::from_name("steffen").unwrap(), Method::Steffen);
}

#[test]
fn method2d_names_ignore_case() {
    assert_eq!(Method2d::from_name("Bicubic").unwrap(), Method2d::Bicubic);
    assert_eq!(Method2d::from_name("bicubic").unwrap(), Method2d::Bicubic);
    assert_eq!(Method2d::from_name("BILINEAR").unwrap(), Method2d::Bilinear);
}

#[test]
fn unknown_method_is_refused() {
    match Method::from_name("spline") {
        Err(EqError::UnknownMethod(name)) => assert_eq!(name, "spline"),
        other => panic!("unexpected: {:?}", other),
    }
    assert!(matches!(Method::from_name(""), Err(EqError::UnknownMethod(_))));
    assert!(matches!(Method::from_name("linea"), Err(EqError::UnknownMethod(_))));
    assert!(matches!(Method::from_name("linear "), Err(EqError::UnknownMethod(_))));
}

#[test]
fn methods_of_one_dimension_are_not_two() {
    assert!(matches!(Method2d::from_name("cubic"), Err(EqError::UnknownMethod(_))));
    assert!(matches!(Method::from_name("bicubic"), Err(EqError::UnknownMethod(_))));
}
