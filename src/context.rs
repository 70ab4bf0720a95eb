use crate::date::{parsed_date, Date, DateArg};
use crate::error::Error;
use crate::geometry::Geometry;
use vstd::prelude::*;

verus! {

/// Where and when an observation is made: date, latitude and longitude (deg),
/// altitude (cm) and local geometry. `V` is the type of the measures.
#[derive(Clone, Copy, Debug, PartialEq)]
pub struct Context<V> {
    pub date: Date,
    pub latitude: V,
    pub longitude: V,
    pub altitude: V,
    pub geometry: Geometry<V>,
}

/// The date that a date argument gives, if it gives one.
pub open spec fn date_of_arg(arg: DateArg) -> Option<(int, int, int)> {
    match arg {
        DateArg::String(s) => parsed_date(s@, "%Y-%m-%d"@),
        DateArg::Date(d) => Some(d@),
    }
}

impl<V: Copy> Context<V> {
    /// A context from the values given; the others default to the first of
    /// January 2000, `zero` for each measure, and open ground with humidity
    /// `zero`.
    pub fn new(
        date: Option<DateArg>,
        latitude: Option<V>,
        longitude: Option<V>,
        altitude: Option<V>,
        geometry: Option<Geometry<V>>,
        zero: V,
    ) -> (r: Result<Context<V>, Error>)
        ensures
            match date {
                Some(arg) => (r is Ok <==> date_of_arg(arg) is Some) && (r is Ok ==> r->Ok_0.date@
                    == date_of_arg(arg)->Some_0) && (r is Err ==> r->Err_0 is BadDate),
                None => r is Ok && r->Ok_0.date@ == (2000int, 1int, 1int),
            },
            r is Ok ==> {
                let c = r->Ok_0;
                &&& c.latitude == crate::flux::given_or(latitude, zero)
                &&& c.longitude == crate::flux::given_or(longitude, zero)
                &&& c.altitude == crate::flux::given_or(altitude, zero)
                &&& c.geometry == crate::flux::given_or(geometry, Geometry::Humidity(zero))
            },
    {
        let date = match date {
            Some(arg) => match Date::try_from_arg(arg) {
                Ok(d) => d,
                Err(e) => {
                    return Err(e);
                },
            },
            None => Date::default(),
        };
        let latitude = match latitude {
            Some(v) => v,
            None => zero,
        };
        let longitude = match longitude {
            Some(v) => v,
            None => zero,
        };
        let altitude = match altitude {
            Some(v) => v,
            None => zero,
        };
        let geometry = match geometry {
            Some(g) => g,
            None => Geometry::Humidity(zero),
        };
        Ok(Context { date, latitude, longitude, altitude, geometry })
    }

    /// Sets the date; on a date that cannot be read the context is left as
    /// it was.
    pub fn set_date(&mut self, arg: DateArg) -> (r: Result<(), Error>)
        ensures
            r is Ok <==> date_of_arg(arg) is Some,
            r is Ok ==> final(self).date@ == date_of_arg(arg)->Some_0 && *final(self) == (Context {
                date: final(self).date,
                ..*old(self)
            }),
            r is Err ==> *final(self) == *old(self) && r->Err_0 is BadDate,
    {
        match Date::try_from_arg(arg) {
            Ok(d) => {
                self.date = d;
                Ok(())
            },
            Err(e) => Err(e),
        }
    }
}

} // verus!
