use fluxmeter::{Context, Date, DateArg, Error, ErrorKind, Geometry};

#[test]
fn parsed_date_equals_constructed_date() {
    let parsed = Date::try_from_arg(DateArg::String("2021-06-15".to_string())).unwrap();
    let direct = Date::from_ymd(2021, 6, 15).unwrap();
    assert_eq!(parsed, direct);
    assert_eq!(parsed.year(), 2021);
    assert_eq!(parsed.month(), 6);
    assert_eq!(parsed.day(), 15);
    let given = Date::try_from_arg(DateArg::Date(direct)).unwrap();
    assert_eq!(given, direct);
}

#[test]
fn bad_date_text_is_invalid() {
    let e = Date::parse("2021-13-01").unwrap_err();
    assert_eq!(e.kind(), ErrorKind::InvalidArgument);
    assert!(matches!(e, Error::BadDate(_)));
    assert!(Date::parse("June 15th").is_err());
    assert!(Date::parse("2021-02-30").is_err());
}

#[test]
fn calendar_validity() {
    assert!(Date::from_ymd(2023, 2, 29).is_none());
    assert!(Date::from_ymd(2024, 2, 29).is_some());
    assert!(Date::from_ymd(1900, 2, 29).is_none());
    assert!(Date::from_ymd(2000, 2, 29).is_some());
    assert!(Date::from_ymd(2021, 4, 31).is_none());
    assert!(Date::from_ymd(2021, 0, 1).is_none());
    assert!(Date::from_ymd(2021, 1, 0).is_none());
    assert!(Date::from_ymd(400000, 1, 1).is_none());
    assert!(Date::from_ymd(262142, 12, 31).is_some());
    assert!(Date::from_ymd(262143, 1, 1).is_none());
    assert!(Date::from_ymd(-262143, 1, 1).is_some());
    assert!(Date::from_ymd(-262144, 12, 31).is_none());
}

#[test]
fn default_date_is_start_of_2000() {
    let d = Date::default();
    assert_eq!((d.year(), d.month(), d.day()), (2000, 1, 1));
}

#[test]
fn context_defaults_and_date_setting() {
    let mut c: Context<f64> = Context::new(None, Some(45.0), None, None, None, 0.0).unwrap();
    assert_eq!(c.date, Date::from_ymd(2000, 1, 1).unwrap());
    assert_eq!((c.latitude, c.longitude, c.altitude), (45.0, 0.0, 0.0));
    assert_eq!(c.geometry, Geometry::Humidity(0.0));
    c.set_date(DateArg::String("2021-06-15".to_string())).unwrap();
    assert_eq!(c.date, Date::from_ymd(2021, 6, 15).unwrap());
    let before = c;
    let e = c.set_date(DateArg::String("15/06/2021".to_string())).unwrap_err();
    assert_eq!(e.kind(), ErrorKind::InvalidArgument);
    assert_eq!(c, before);
    let bad = Context::<f64>::new(Some(DateArg::String("x".to_string())), None, None, None, None, 0.0);
    assert!(matches!(bad, Err(Error::BadDate(_))));
    let cabin = Context::new(None, None, None, Some(1.0e6), Some(Geometry::Cabin), 0.0).unwrap();
    assert_eq!(cabin.geometry, Geometry::Cabin);
    assert_eq!(cabin.altitude, 1.0e6);
}
