use crate::error::Error;
use crate::text::str_equal;
use vstd::prelude::*;

verus! {

/// The closed catalogue of species that the transport model knows.
#[derive(Clone, Copy, Debug, PartialEq, Eq, Structural)]
pub enum Particle {
    /// A neutron.
    Neutron,
    /// A proton.
    Proton,
    /// A nucleus of He (Z = 2).
    He,
    /// A nucleus of Li (Z = 3).
    Li,
    /// A nucleus of Be (Z = 4).
    Be,
    /// A nucleus of B (Z = 5).
    B,
    /// A nucleus of C (Z = 6).
    C,
    /// A nucleus of N (Z = 7).
    N,
    /// A nucleus of O (Z = 8).
    O,
    /// A nucleus of F (Z = 9).
    F,
    /// A nucleus of Ne (Z = 10).
    Ne,
    /// A nucleus of Na (Z = 11).
    Na,
    /// A nucleus of Mg (Z = 12).
    Mg,
    /// A nucleus of Al (Z = 13).
    Al,
    /// A nucleus of Si (Z = 14).
    Si,
    /// A nucleus of P (Z = 15).
    P,
    /// A nucleus of S (Z = 16).
    S,
    /// A nucleus of Cl (Z = 17).
    Cl,
    /// A nucleus of Ar (Z = 18).
    Ar,
    /// A nucleus of K (Z = 19).
    K,
    /// A nucleus of Ca (Z = 20).
    Ca,
    /// A nucleus of Sc (Z = 21).
    Sc,
    /// A nucleus of Ti (Z = 22).
    Ti,
    /// A nucleus of V (Z = 23).
    V,
    /// A nucleus of Cr (Z = 24).
    Cr,
    /// A nucleus of Mn (Z = 25).
    Mn,
    /// A nucleus of Fe (Z = 26).
    Fe,
    /// A nucleus of Co (Z = 27).
    Co,
    /// A nucleus of Ni (Z = 28).
    Ni,
    /// A positive muon.
    MuonPlus,
    /// A negative muon.
    MuonMinus,
    /// An electron.
    Electron,
    /// A positron.
    Positron,
    /// A photon.
    Photon,
}

/// How a caller names a particle: by its numeric code or by its symbol.
#[derive(Clone, Debug, PartialEq, Eq)]
pub enum ParticleArg {
    Pid(i32),
    Symbol(String),
}

/// The species code that the transport model expects, a fixed wire value.
pub open spec fn ordinal(p: Particle) -> nat {
    match p {
        Particle::Neutron => 0,
        Particle::Proton => 1,
        Particle::He => 2,
        Particle::Li => 3,
        Particle::Be => 4,
        Particle::B => 5,
        Particle::C => 6,
        Particle::N => 7,
        Particle::O => 8,
        Particle::F => 9,
        Particle::Ne => 10,
        Particle::Na => 11,
        Particle::Mg => 12,
        Particle::Al => 13,
        Particle::Si => 14,
        Particle::P => 15,
        Particle::S => 16,
        Particle::Cl => 17,
        Particle::Ar => 18,
        Particle::K => 19,
        Particle::Ca => 20,
        Particle::Sc => 21,
        Particle::Ti => 22,
        Particle::V => 23,
        Particle::Cr => 24,
        Particle::Mn => 25,
        Particle::Fe => 26,
        Particle::Co => 27,
        Particle::Ni => 28,
        Particle::MuonPlus => 29,
        Particle::MuonMinus => 30,
        Particle::Electron => 31,
        Particle::Positron => 32,
        Particle::Photon => 33,
    }
}

/// The angular category of a species: 1 for neutrons, 2 for protons, 3 for
/// helium, 4 for muons, 5 for electrons and positrons, 6 for photons, and 0
/// for the species that have no angular model.
pub open spec fn angular_category(p: Particle) -> int {
    match p {
        Particle::Neutron => 1,
        Particle::Proton => 2,
        Particle::He => 3,
        Particle::MuonPlus | Particle::MuonMinus => 4,
        Particle::Electron | Particle::Positron => 5,
        Particle::Photon => 6,
        _ => 0,
    }
}

/// The species that a symbol names, if any.
pub open spec fn particle_of_symbol(s: Seq<char>) -> Option<Particle> {
    if s == "n"@ {
        Some(Particle::Neutron)
    } else if s == "p"@ {
        Some(Particle::Proton)
    } else if s == "He"@ {
        Some(Particle::He)
    } else if s == "Li"@ {
        Some(Particle::Li)
    } else if s == "Be"@ {
        Some(Particle::Be)
    } else if s == "B"@ {
        Some(Particle::B)
    } else if s == "C"@ {
        Some(Particle::C)
    } else if s == "N"@ {
        Some(Particle::N)
    } else if s == "O"@ {
        Some(Particle::O)
    } else if s == "F"@ {
        Some(Particle::F)
    } else if s == "Ne"@ {
        Some(Particle::Ne)
    } else if s == "Na"@ {
        Some(Particle::Na)
    } else if s == "Mg"@ {
        Some(Particle::Mg)
    } else if s == "Al"@ {
        Some(Particle::Al)
    } else if s == "Si"@ {
        Some(Particle::Si)
    } else if s == "P"@ {
        Some(Particle::P)
    } else if s == "S"@ {
        Some(Particle::S)
    } else if s == "Cl"@ {
        Some(Particle::Cl)
    } else if s == "Ar"@ {
        Some(Particle::Ar)
    } else if s == "K"@ {
        Some(Particle::K)
    } else if s == "Ca"@ {
        Some(Particle::Ca)
    } else if s == "Sc"@ {
        Some(Particle::Sc)
    } else if s == "Ti"@ {
        Some(Particle::Ti)
    } else if s == "V"@ {
        Some(Particle::V)
    } else if s == "Cr"@ {
        Some(Particle::Cr)
    } else if s == "Mn"@ {
        Some(Particle::Mn)
    } else if s == "Fe"@ {
        Some(Particle::Fe)
    } else if s == "Co"@ {
        Some(Particle::Co)
    } else if s == "Ni"@ {
        Some(Particle::Ni)
    } else if s == "mu+"@ {
        Some(Particle::MuonPlus)
    } else if s == "mu-"@ {
        Some(Particle::MuonMinus)
    } else if s == "e-"@ {
        Some(Particle::Electron)
    } else if s == "e+"@ {
        Some(Particle::Positron)
    } else if s == "gamma"@ {
        Some(Particle::Photon)
    } else {
        None
    }
}

/// The species that a numeric code names, if any.
pub open spec fn particle_of_pid(code: i32) -> Option<Particle> {
    match code {
        -13 => Some(Particle::MuonPlus),
        -11 => Some(Particle::Positron),
        11 => Some(Particle::Electron),
        13 => Some(Particle::MuonMinus),
        22 => Some(Particle::Photon),
        2112 => Some(Particle::Neutron),
        2212 => Some(Particle::Proton),
        _ => None,
    }
}

/// The species that a particle argument names, if any.
pub open spec fn particle_of_arg(arg: ParticleArg) -> Option<Particle> {
    match arg {
        ParticleArg::Pid(code) => particle_of_pid(code),
        ParticleArg::Symbol(s) => particle_of_symbol(s@),
    }
}


/// The symbol of a species.
pub open spec fn symbol(p: Particle) -> Seq<char> {
    match p {
        Particle::Neutron => "n"@,
        Particle::Proton => "p"@,
        Particle::He => "He"@,
        Particle::Li => "Li"@,
        Particle::Be => "Be"@,
        Particle::B => "B"@,
        Particle::C => "C"@,
        Particle::N => "N"@,
        Particle::O => "O"@,
        Particle::F => "F"@,
        Particle::Ne => "Ne"@,
        Particle::Na => "Na"@,
        Particle::Mg => "Mg"@,
        Particle::Al => "Al"@,
        Particle::Si => "Si"@,
        Particle::P => "P"@,
        Particle::S => "S"@,
        Particle::Cl => "Cl"@,
        Particle::Ar => "Ar"@,
        Particle::K => "K"@,
        Particle::Ca => "Ca"@,
        Particle::Sc => "Sc"@,
        Particle::Ti => "Ti"@,
        Particle::V => "V"@,
        Particle::Cr => "Cr"@,
        Particle::Mn => "Mn"@,
        Particle::Fe => "Fe"@,
        Particle::Co => "Co"@,
        Particle::Ni => "Ni"@,
        Particle::MuonPlus => "mu+"@,
        Particle::MuonMinus => "mu-"@,
        Particle::Electron => "e-"@,
        Particle::Positron => "e+"@,
        Particle::Photon => "gamma"@,
    }
}

/// The numeric code of a species; nuclei heavier than the proton have none.
pub open spec fn numeric_code(p: Particle) -> Option<i32> {
    match p {
        Particle::Neutron => Some(2112i32),
        Particle::Proton => Some(2212i32),
        Particle::MuonPlus => Some(-13i32),
        Particle::MuonMinus => Some(13i32),
        Particle::Electron => Some(11i32),
        Particle::Positron => Some(-11i32),
        Particle::Photon => Some(22i32),
        _ => None,
    }
}

/// Every species is found again from its own symbol.
pub proof fn lemma_symbol_round_trip(p: Particle)
    ensures
        particle_of_symbol(symbol(p)) == Some(p),
{
    reveal_strlit("n");
    reveal_strlit("p");
    reveal_strlit("He");
    reveal_strlit("Li");
    reveal_strlit("Be");
    reveal_strlit("B");
    reveal_strlit("C");
    reveal_strlit("N");
    reveal_strlit("O");
    reveal_strlit("F");
    reveal_strlit("Ne");
    reveal_strlit("Na");
    reveal_strlit("Mg");
    reveal_strlit("Al");
    reveal_strlit("Si");
    reveal_strlit("P");
    reveal_strlit("S");
    reveal_strlit("Cl");
    reveal_strlit("Ar");
    reveal_strlit("K");
    reveal_strlit("Ca");
    reveal_strlit("Sc");
    reveal_strlit("Ti");
    reveal_strlit("V");
    reveal_strlit("Cr");
    reveal_strlit("Mn");
    reveal_strlit("Fe");
    reveal_strlit("Co");
    reveal_strlit("Ni");
    reveal_strlit("mu+");
    reveal_strlit("mu-");
    reveal_strlit("e-");
    reveal_strlit("e+");
    reveal_strlit("gamma");
    assert("n"@.len() == 1 && "n"@[0] == 'n');
    assert("p"@.len() == 1 && "p"@[0] == 'p');
    assert("He"@.len() == 2 && "He"@[0] == 'H' && "He"@[1] == 'e');
    assert("Li"@.len() == 2 && "Li"@[0] == 'L' && "Li"@[1] == 'i');
    assert("Be"@.len() == 2 && "Be"@[0] == 'B' && "Be"@[1] == 'e');
    assert("B"@.len() == 1 && "B"@[0] == 'B');
    assert("C"@.len() == 1 && "C"@[0] == 'C');
    assert("N"@.len() == 1 && "N"@[0] == 'N');
    assert("O"@.len() == 1 && "O"@[0] == 'O');
    assert("F"@.len() == 1 && "F"@[0] == 'F');
    assert("Ne"@.len() == 2 && "Ne"@[0] == 'N' && "Ne"@[1] == 'e');
    assert("Na"@.len() == 2 && "Na"@[0] == 'N' && "Na"@[1] == 'a');
    assert("Mg"@.len() == 2 && "Mg"@[0] == 'M' && "Mg"@[1] == 'g');
    assert("Al"@.len() == 2 && "Al"@[0] == 'A' && "Al"@[1] == 'l');
    assert("Si"@.len() == 2 && "Si"@[0] == 'S' && "Si"@[1] == 'i');
    assert("P"@.len() == 1 && "P"@[0] == 'P');
    assert("S"@.len() == 1 && "S"@[0] == 'S');
    assert("Cl"@.len() == 2 && "Cl"@[0] == 'C' && "Cl"@[1] == 'l');
    assert("Ar"@.len() == 2 && "Ar"@[0] == 'A' && "Ar"@[1] == 'r');
    assert("K"@.len() == 1 && "K"@[0] == 'K');
    assert("Ca"@.len() == 2 && "Ca"@[0] == 'C' && "Ca"@[1] == 'a');
    assert("Sc"@.len() == 2 && "Sc"@[0] == 'S' && "Sc"@[1] == 'c');
    assert("Ti"@.len() == 2 && "Ti"@[0] == 'T' && "Ti"@[1] == 'i');
    assert("V"@.len() == 1 && "V"@[0] == 'V');
    assert("Cr"@.len() == 2 && "Cr"@[0] == 'C' && "Cr"@[1] == 'r');
    assert("Mn"@.len() == 2 && "Mn"@[0] == 'M' && "Mn"@[1] == 'n');
    assert("Fe"@.len() == 2 && "Fe"@[0] == 'F' && "Fe"@[1] == 'e');
    assert("Co"@.len() == 2 && "Co"@[0] == 'C' && "Co"@[1] == 'o');
    assert("Ni"@.len() == 2 && "Ni"@[0] == 'N' && "Ni"@[1] == 'i');
    assert("mu+"@.len() == 3 && "mu+"@[0] == 'm' && "mu+"@[1] == 'u' && "mu+"@[2] == '+');
    assert("mu-"@.len() == 3 && "mu-"@[0] == 'm' && "mu-"@[1] == 'u' && "mu-"@[2] == '-');
    assert("e-"@.len() == 2 && "e-"@[0] == 'e' && "e-"@[1] == '-');
    assert("e+"@.len() == 2 && "e+"@[0] == 'e' && "e+"@[1] == '+');
    assert("gamma"@.len() == 5 && "gamma"@[0] == 'g' && "gamma"@[1] == 'a');
    assert("gamma"@[2] == 'm' && "gamma"@[3] == 'm' && "gamma"@[4] == 'a');
}

/// A species that has both a symbol and a numeric code resolves to the same
/// species, with the same angular category, from either of them.
pub proof fn lemma_symbol_and_code_agree(p: Particle)
    requires
        numeric_code(p) is Some,
    ensures
        particle_of_pid(numeric_code(p)->Some_0) == Some(p),
        particle_of_symbol(symbol(p)) == particle_of_pid(numeric_code(p)->Some_0),
        angular_category(particle_of_symbol(symbol(p))->Some_0) == angular_category(
            particle_of_pid(numeric_code(p)->Some_0)->Some_0,
        ),
{
    lemma_symbol_round_trip(p);
}

/// Every numeric code that resolves names a species whose code it is.
pub proof fn lemma_pid_round_trip(code: i32)
    requires
        particle_of_pid(code) is Some,
    ensures
        numeric_code(particle_of_pid(code)->Some_0) == Some(code),
{
}

impl Particle {
    /// The species code handed to the transport model.
    pub fn code(&self) -> (r: u8)
        ensures
            r as nat == ordinal(*self),
    {
        match self {
            Particle::Neutron => 0,
            Particle::Proton => 1,
            Particle::He => 2,
            Particle::Li => 3,
            Particle::Be => 4,
            Particle::B => 5,
            Particle::C => 6,
            Particle::N => 7,
            Particle::O => 8,
            Particle::F => 9,
            Particle::Ne => 10,
            Particle::Na => 11,
            Particle::Mg => 12,
            Particle::Al => 13,
            Particle::Si => 14,
            Particle::P => 15,
            Particle::S => 16,
            Particle::Cl => 17,
            Particle::Ar => 18,
            Particle::K => 19,
            Particle::Ca => 20,
            Particle::Sc => 21,
            Particle::Ti => 22,
            Particle::V => 23,
            Particle::Cr => 24,
            Particle::Mn => 25,
            Particle::Fe => 26,
            Particle::Co => 27,
            Particle::Ni => 28,
            Particle::MuonPlus => 29,
            Particle::MuonMinus => 30,
            Particle::Electron => 31,
            Particle::Positron => 32,
            Particle::Photon => 33,
        }
    }

    /// The angular category handed to the model's angular correction.
    pub fn angular_index(&self) -> (r: i32)
        ensures
            r as int == angular_category(*self),
    {
        match self {
            Particle::Neutron => 1,
            Particle::Proton => 2,
            Particle::He => 3,
            Particle::MuonPlus | Particle::MuonMinus => 4,
            Particle::Electron | Particle::Positron => 5,
            Particle::Photon => 6,
            _ => 0,
        }
    }

    /// Resolves a symbol ("n", "p", "He" to "Ni", "mu+", "mu-", "e-", "e+",
    /// "gamma"); the match is exact and case-sensitive.
    pub fn from_symbol(value: &str) -> (r: Result<Particle, Error>)
        ensures
            match particle_of_symbol(value@) {
                Some(p) => r == Ok::<Particle, Error>(p),
                None => r is Err && r->Err_0 is BadParticle && r->Err_0->BadParticle_0@ == value@,
            },
    {
        if str_equal(value, "n") {
            Ok(Particle::Neutron)
        } else if str_equal(value, "p") {
            Ok(Particle::Proton)
        } else if str_equal(value, "He") {
            Ok(Particle::He)
        } else if str_equal(value, "Li") {
            Ok(Particle::Li)
        } else if str_equal(value, "Be") {
            Ok(Particle::Be)
        } else if str_equal(value, "B") {
            Ok(Particle::B)
        } else if str_equal(value, "C") {
            Ok(Particle::C)
        } else if str_equal(value, "N") {
            Ok(Particle::N)
        } else if str_equal(value, "O") {
            Ok(Particle::O)
        } else if str_equal(value, "F") {
            Ok(Particle::F)
        } else if str_equal(value, "Ne") {
            Ok(Particle::Ne)
        } else if str_equal(value, "Na") {
            Ok(Particle::Na)
        } else if str_equal(value, "Mg") {
            Ok(Particle::Mg)
        } else if str_equal(value, "Al") {
            Ok(Particle::Al)
        } else if str_equal(value, "Si") {
            Ok(Particle::Si)
        } else if str_equal(value, "P") {
            Ok(Particle::P)
        } else if str_equal(value, "S") {
            Ok(Particle::S)
        } else if str_equal(value, "Cl") {
            Ok(Particle::Cl)
        } else if str_equal(value, "Ar") {
            Ok(Particle::Ar)
        } else if str_equal(value, "K") {
            Ok(Particle::K)
        } else if str_equal(value, "Ca") {
            Ok(Particle::Ca)
        } else if str_equal(value, "Sc") {
            Ok(Particle::Sc)
        } else if str_equal(value, "Ti") {
            Ok(Particle::Ti)
        } else if str_equal(value, "V") {
            Ok(Particle::V)
        } else if str_equal(value, "Cr") {
            Ok(Particle::Cr)
        } else if str_equal(value, "Mn") {
            Ok(Particle::Mn)
        } else if str_equal(value, "Fe") {
            Ok(Particle::Fe)
        } else if str_equal(value, "Co") {
            Ok(Particle::Co)
        } else if str_equal(value, "Ni") {
            Ok(Particle::Ni)
        } else if str_equal(value, "mu+") {
            Ok(Particle::MuonPlus)
        } else if str_equal(value, "mu-") {
            Ok(Particle::MuonMinus)
        } else if str_equal(value, "e-") {
            Ok(Particle::Electron)
        } else if str_equal(value, "e+") {
            Ok(Particle::Positron)
        } else if str_equal(value, "gamma") {
            Ok(Particle::Photon)
        } else {
            Err(Error::BadParticle(value.to_string()))
        }
    }

    /// Resolves a numeric particle code: -13, -11, 11, 13, 22, 2112, 2212.
    pub fn from_pid(value: i32) -> (r: Result<Particle, Error>)
        ensures
            match particle_of_pid(value) {
                Some(p) => r == Ok::<Particle, Error>(p),
                None => r == Err::<Particle, Error>(Error::BadParticleId(value)),
            },
    {
        match value {
            -13 => Ok(Particle::MuonPlus),
            -11 => Ok(Particle::Positron),
            11 => Ok(Particle::Electron),
            13 => Ok(Particle::MuonMinus),
            22 => Ok(Particle::Photon),
            2112 => Ok(Particle::Neutron),
            2212 => Ok(Particle::Proton),
            _ => Err(Error::BadParticleId(value)),
        }
    }

    /// Resolves a particle argument, by code or by symbol.
    pub fn try_from_arg(value: &ParticleArg) -> (r: Result<Particle, Error>)
        ensures
            match particle_of_arg(*value) {
                Some(p) => r == Ok::<Particle, Error>(p),
                None => match *value {
                    ParticleArg::Pid(code) => r == Err::<Particle, Error>(Error::BadParticleId(code)),
                    ParticleArg::Symbol(s) => r is Err && r->Err_0 is BadParticle
                        && r->Err_0->BadParticle_0@ == s@,
                },
            },
    {
        match value {
            ParticleArg::Pid(code) => Particle::from_pid(*code),
            ParticleArg::Symbol(s) => Particle::from_symbol(s.as_str()),
        }
    }
}

} // verus!
