use fluxmeter::{Error, ErrorKind, Geometry, GeometryParameter};

fn scalar(g: Geometry<f64>) -> f64 {
    match g.to_parameter() {
        GeometryParameter::Whole(v) => v as f64,
        GeometryParameter::Humidity(h) => h,
    }
}

#[test]
fn named_geometries_map_to_their_scalars() {
    assert_eq!(scalar(Geometry::from_name("blackhole").unwrap()), 100.0);
    assert_eq!(scalar(Geometry::from_name("cabin").unwrap()), -11.0);
    assert_eq!(scalar(Geometry::from_name("no_ground").unwrap()), 10.0);
    assert_eq!(scalar(Geometry::from_name("pilot").unwrap()), -1.0);
}

#[test]
fn humidity_is_passed_through() {
    assert_eq!(scalar(Geometry::Humidity(3.5)), 3.5);
    assert_eq!(scalar(Geometry::Humidity(-20.0)), -20.0);
    assert_eq!(scalar(Geometry::Humidity(0.0)), 0.0);
}

#[test]
fn unknown_geometry_is_invalid() {
    let e = Geometry::<f64>::from_name("lake").unwrap_err();
    assert_eq!(e.kind(), ErrorKind::InvalidArgument);
    assert_eq!(e, Error::BadGeometry("lake".to_string()));
    assert!(Geometry::<f64>::from_name("Cabin").is_err());
}

#[test]
fn names_select_variants() {
    assert_eq!(Geometry::<f64>::from_name("blackhole").unwrap(), Geometry::Blackhole);
    assert_eq!(Geometry::<f64>::from_name("cabin").unwrap(), Geometry::Cabin);
    assert_eq!(Geometry::<f64>::from_name("no_ground").unwrap(), Geometry::NoGround);
    assert_eq!(Geometry::<f64>::from_name("pilot").unwrap(), Geometry::Pilot);
}
