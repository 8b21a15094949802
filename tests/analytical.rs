use tokamak_equilibria::bfield;
use tokamak_equilibria::current;
use tokamak_equilibria::efield::NoEfield;
use tokamak_equilibria::qfactor;
use tokamak_equilibria::{Equilibrium, Tokamak};

#[test]
fn unity_is_built() {
    assert!(qfactor::Unity::new().is_ok());
}

#[test]
fn lar_profiles_are_built() {
    assert!(bfield::Lar::new().is_ok());
    assert!(current::Lar::new().is_ok());
}

#[test]
fn no_efield_is_built() {
    assert!(NoEfield::new().is_ok());
}

#[test]
fn test_analytical_eq() {
    let qfactor = qfactor::Unity::new().unwrap();
    let bfield = bfield::Lar::new().unwrap();
    let current = current::Lar::new().unwrap();
    let efield = NoEfield::new().unwrap();

    let eq = Equilibrium::from_analytical(qfactor, bfield, current, efield).unwrap();
    let _: &qfactor::Unity = &eq.qfactor;
    let _: &bfield::Lar = &eq.bfield;
    let _: &current::Lar = &eq.current;
    let _: &NoEfield = &eq.efield;
}

#[test]
fn test_analytical_tokamak() {
    let qfactor = qfactor::Unity::new().unwrap();
    let bfield = bfield::Lar::new().unwrap();
    let current = current::Lar::new().unwrap();
    let efield = NoEfield::new().unwrap();

    let t = Tokamak::build(qfactor, bfield, current, efield).unwrap();
    let _: &qfactor::Unity = &t.qfactor;
    let _: &NoEfield = &t.efield;
}

#[test]
fn equilibrium_keeps_its_parts() {
    let eq = Equilibrium::from_analytical(1u8, 2u16, 3u32, 4u64).unwrap();
    assert_eq!(eq.qfactor, 1);
    assert_eq!(eq.bfield, 2);
    assert_eq!(eq.current, 3);
    assert_eq!(eq.efield, 4);
}
