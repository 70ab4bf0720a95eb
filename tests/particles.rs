use fluxmeter::{ErrorKind, Particle, ParticleArg};

#[test]
fn symbol_and_code_resolve_to_same_species() {
    let pairs = [
        ("n", 2112),
        ("p", 2212),
        ("e-", 11),
        ("e+", -11),
        ("mu+", -13),
        ("mu-", 13),
        ("gamma", 22),
    ];
    for (symbol, code) in pairs {
        let a = Particle::from_symbol(symbol).unwrap();
        let b = Particle::from_pid(code).unwrap();
        assert_eq!(a, b);
        assert_eq!(a.angular_index(), b.angular_index());
        assert_eq!(a.code(), b.code());
    }
}

#[test]
fn unknown_symbol_is_invalid() {
    let e = Particle::from_symbol("Xx").unwrap_err();
    assert_eq!(e.kind(), ErrorKind::InvalidArgument);
    assert_eq!(e, fluxmeter::Error::BadParticle("Xx".to_string()));
}

#[test]
fn unknown_code_is_invalid() {
    let e = Particle::from_pid(999).unwrap_err();
    assert_eq!(e.kind(), ErrorKind::InvalidArgument);
    assert_eq!(e, fluxmeter::Error::BadParticleId(999));
}

#[test]
fn symbols_are_case_sensitive() {
    assert!(Particle::from_symbol("he").is_err());
    assert!(Particle::from_symbol("N").is_ok());
    assert_eq!(Particle::from_symbol("N").unwrap(), Particle::N);
    assert_eq!(Particle::from_symbol("n").unwrap(), Particle::Neutron);
    assert!(Particle::from_symbol("").is_err());
}

#[test]
fn species_codes_are_fixed() {
    assert_eq!(Particle::Neutron.code(), 0);
    assert_eq!(Particle::Proton.code(), 1);
    assert_eq!(Particle::He.code(), 2);
    assert_eq!(Particle::Fe.code(), 26);
    assert_eq!(Particle::Ni.code(), 28);
    assert_eq!(Particle::MuonPlus.code(), 29);
    assert_eq!(Particle::MuonMinus.code(), 30);
    assert_eq!(Particle::Electron.code(), 31);
    assert_eq!(Particle::Positron.code(), 32);
    assert_eq!(Particle::Photon.code(), 33);
}

#[test]
fn angular_categories() {
    assert_eq!(Particle::Neutron.angular_index(), 1);
    assert_eq!(Particle::Proton.angular_index(), 2);
    assert_eq!(Particle::He.angular_index(), 3);
    assert_eq!(Particle::MuonPlus.angular_index(), 4);
    assert_eq!(Particle::MuonMinus.angular_index(), 4);
    assert_eq!(Particle::Electron.angular_index(), 5);
    assert_eq!(Particle::Positron.angular_index(), 5);
    assert_eq!(Particle::Photon.angular_index(), 6);
    assert_eq!(Particle::Li.angular_index(), 0);
    assert_eq!(Particle::Ni.angular_index(), 0);
}

#[test]
fn heavy_nuclei_have_symbols_only() {
    let fe = Particle::from_symbol("Fe").unwrap();
    assert_eq!(fe, Particle::Fe);
    assert!(Particle::from_pid(26).is_err());
    assert!(Particle::from_pid(1000260560).is_err());
}

#[test]
fn particle_argument_resolves_either_way() {
    let by_code = Particle::try_from_arg(&ParticleArg::Pid(2212)).unwrap();
    let by_symbol = Particle::try_from_arg(&ParticleArg::Symbol("p".to_string())).unwrap();
    assert_eq!(by_code, Particle::Proton);
    assert_eq!(by_symbol, Particle::Proton);
    let bad = Particle::try_from_arg(&ParticleArg::Symbol("Xx".to_string())).unwrap_err();
    assert_eq!(bad.kind(), ErrorKind::InvalidArgument);
}
