use crate::error::Error;
use crate::text::str_equal;
use vstd::prelude::*;

verus! {

/// The shielding and reflection environment around the observer. It matters
/// for neutrons only. `H` is the type of the humidity value.
#[derive(Clone, Copy, Debug, PartialEq)]
pub enum Geometry<H> {
    /// An ideal absorber below the observer.
    Blackhole,
    /// Inside an aircraft cabin.
    Cabin,
    /// Open ground with the given water content.
    Humidity(H),
    /// No ground at all.
    NoGround,
    /// In an aircraft cockpit.
    Pilot,
}

/// The scalar that encodes a geometry for the transport model: a whole number
/// for the named geometries, the humidity value itself otherwise.
#[derive(Clone, Copy, Debug, PartialEq)]
pub enum GeometryParameter<H> {
    Whole(i32),
    Humidity(H),
}

/// The named geometry that a string selects, if any.
pub open spec fn geometry_of_name<H>(s: Seq<char>) -> Option<Geometry<H>> {
    if s == "blackhole"@ {
        Some(Geometry::Blackhole)
    } else if s == "cabin"@ {
        Some(Geometry::Cabin)
    } else if s == "no_ground"@ {
        Some(Geometry::NoGround)
    } else if s == "pilot"@ {
        Some(Geometry::Pilot)
    } else {
        None
    }
}

/// The model's scalar for a geometry: 100 for a black hole, -11 for a cabin,
/// 10 without ground, -1 for a pilot, and the humidity value itself.
pub open spec fn parameter_of<H>(g: Geometry<H>) -> GeometryParameter<H> {
    match g {
        Geometry::Blackhole => GeometryParameter::Whole(100),
        Geometry::Cabin => GeometryParameter::Whole(-11i32),
        Geometry::Humidity(h) => GeometryParameter::Humidity(h),
        Geometry::NoGround => GeometryParameter::Whole(10),
        Geometry::Pilot => GeometryParameter::Whole(-1i32),
    }
}

impl<H> Geometry<H> {
    /// Selects a named geometry: "blackhole", "cabin", "no_ground" or
    /// "pilot", matched exactly and case-sensitively.
    pub fn from_name(name: &str) -> (r: Result<Geometry<H>, Error>)
        ensures
            match geometry_of_name::<H>(name@) {
                Some(g) => r == Ok::<Geometry<H>, Error>(g),
                None => r is Err && r->Err_0 is BadGeometry && r->Err_0->BadGeometry_0@ == name@,
            },
    {
        if str_equal(name, "blackhole") {
            Ok(Geometry::Blackhole)
        } else if str_equal(name, "cabin") {
            Ok(Geometry::Cabin)
        } else if str_equal(name, "no_ground") {
            Ok(Geometry::NoGround)
        } else if str_equal(name, "pilot") {
            Ok(Geometry::Pilot)
        } else {
            Err(Error::BadGeometry(name.to_string()))
        }
    }

    /// The scalar handed to the transport model.
    pub fn to_parameter(self) -> (r: GeometryParameter<H>)
        ensures
            r == parameter_of(self),
    {
        match self {
            Geometry::Blackhole => GeometryParameter::Whole(100),
            Geometry::Cabin => GeometryParameter::Whole(-11i32),
            Geometry::Humidity(h) => GeometryParameter::Humidity(h),
            Geometry::NoGround => GeometryParameter::Whole(10),
            Geometry::Pilot => GeometryParameter::Whole(-1i32),
        }
    }
}

/// Each geometry name selects its own geometry, and that geometry's scalar.
pub proof fn lemma_named_parameters<H>()
    ensures
        parameter_of(geometry_of_name::<H>("blackhole"@)->Some_0) == GeometryParameter::<H>::Whole(
            100,
        ),
        parameter_of(geometry_of_name::<H>("cabin"@)->Some_0) == GeometryParameter::<H>::Whole(
            -11i32,
        ),
        parameter_of(geometry_of_name::<H>("no_ground"@)->Some_0) == GeometryParameter::<H>::Whole(
            10,
        ),
        parameter_of(geometry_of_name::<H>("pilot"@)->Some_0) == GeometryParameter::<H>::Whole(
            -1i32,
        ),
        geometry_of_name::<H>("lake"@) is None,
{
    reveal_strlit("blackhole");
    reveal_strlit("cabin");
    reveal_strlit("no_ground");
    reveal_strlit("pilot");
    reveal_strlit("lake");
    assert("blackhole"@[0] == 'b' && "cabin"@[0] == 'c' && "pilot"@[0] == 'p');
    assert("no_ground"@[0] == 'n' && "lake"@[0] == 'l');
}

} // verus!
