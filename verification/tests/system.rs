use moldyn::error::ConfigError;
use moldyn::io::input::parse_yaml;
use moldyn::io::input::Number;
use moldyn::system::lattice::LatticeSite;
use moldyn::system::periodicity_from_name;
use moldyn::system::read_cell;
use moldyn::system::read_periodicity;
use moldyn::system::read_replicas;
use moldyn::system::SystemDefinition;
use moldyn::utils::metrics::Quantity;
use moldyn::utils::metrics::UnitKind;
use moldyn::utils::metrics::UnitSystem;
use yaml_rust::Yaml;

fn text(value: &str) -> Yaml {
    Yaml::String(value.to_string())
}

fn system_script(extra: &str) -> String {
    format!(
        "cell: [[10.0, 0, 0], [0, 10.0, 0], [0, 0, 10.0]]\nunits: atomic\natoms:\n  - {{name: Ar, position: [0.1, 0, 0]}}\n  - {{name: Ar, position: [9.9, 0, 0]}}\n{}",
        extra
    )
}

#[test]
fn periodicity_strings() {
    assert_eq!(periodicity_from_name("xyz"), Some([true, true, true]));
    assert_eq!(periodicity_from_name("xy"), Some([true, true, false]));
    assert_eq!(periodicity_from_name("xz"), Some([true, false, true]));
    assert_eq!(periodicity_from_name("yz"), Some([false, true, true]));
    assert_eq!(periodicity_from_name("x"), Some([true, false, false]));
    assert_eq!(periodicity_from_name("y"), Some([false, true, false]));
    assert_eq!(periodicity_from_name("z"), Some([false, false, true]));
}

#[test]
fn unknown_periodicity_strings() {
    assert_eq!(periodicity_from_name(""), None);
    assert_eq!(periodicity_from_name("zyx"), None);
    assert_eq!(periodicity_from_name("XYZ"), None);
    assert_eq!(periodicity_from_name("xx"), None);
    assert_eq!(periodicity_from_name("none"), None);
}

#[test]
fn periodicity_of_a_node() {
    assert_eq!(read_periodicity(&Yaml::BadValue), Ok([false, false, false]));
    assert_eq!(read_periodicity(&text("xz")), Ok([true, false, true]));
    let flags = parse_yaml("[true, false, true]").unwrap();
    assert_eq!(read_periodicity(&flags), Ok([true, false, true]));
    let other = parse_yaml("[false, true, false]").unwrap();
    assert_eq!(read_periodicity(&other), Ok([false, true, false]));
}

#[test]
fn periodicity_that_is_unknown() {
    assert_eq!(read_periodicity(&text("abc")), Err(ConfigError::UnknownPeriodicity));
    assert_eq!(read_periodicity(&Yaml::Integer(1)), Err(ConfigError::UnknownPeriodicity));
    assert_eq!(read_periodicity(&Yaml::Null), Err(ConfigError::UnknownPeriodicity));
    let short = parse_yaml("[true, false]").unwrap();
    assert_eq!(read_periodicity(&short), Err(ConfigError::UnknownPeriodicity));
    let long = parse_yaml("[true, false, true, true]").unwrap();
    assert_eq!(read_periodicity(&long), Err(ConfigError::UnknownPeriodicity));
    let numbers = parse_yaml("[1, 0, 1]").unwrap();
    assert_eq!(read_periodicity(&numbers), Err(ConfigError::UnknownPeriodicity));
}

#[test]
fn replicas_of_a_node() {
    assert_eq!(read_replicas(&Yaml::BadValue), Ok([1, 1, 1]));
    let counts = parse_yaml("[2, 3, 4]").unwrap();
    assert_eq!(read_replicas(&counts), Ok([2, 3, 4]));
}

#[test]
fn replicas_that_are_unknown() {
    let zero = parse_yaml("[2, 0, 4]").unwrap();
    assert_eq!(read_replicas(&zero), Err(ConfigError::UnknownReplicas));
    let negative = parse_yaml("[2, 3, -1]").unwrap();
    assert_eq!(read_replicas(&negative), Err(ConfigError::UnknownReplicas));
    let real = parse_yaml("[2.0, 3, 1]").unwrap();
    assert_eq!(read_replicas(&real), Err(ConfigError::UnknownReplicas));
    let short = parse_yaml("[2, 3]").unwrap();
    assert_eq!(read_replicas(&short), Err(ConfigError::UnknownReplicas));
    assert_eq!(read_replicas(&Yaml::Integer(2)), Err(ConfigError::UnknownReplicas));
    assert_eq!(read_replicas(&text("2 2 2")), Err(ConfigError::UnknownReplicas));
}

#[test]
fn cell_of_three_rows() {
    let node = parse_yaml("[[1.0, 0, 0], [0.5, 2.0, 0], [0, 0, 3]]").unwrap();
    let cell = read_cell(&node).unwrap();
    assert_eq!(cell.len(), 3);
    assert_eq!(
        cell[1],
        vec![
            Number::Decimal("0.5".to_string()),
            Number::Decimal("2.0".to_string()),
            Number::Integer(0)
        ]
    );
    assert_eq!(cell[2][2], Number::Integer(3));
}

#[test]
fn cell_that_is_faulty() {
    assert_eq!(read_cell(&Yaml::BadValue), Err(ConfigError::Malformed));
    let two = parse_yaml("[[1, 0, 0], [0, 1, 0]]").unwrap();
    assert_eq!(read_cell(&two), Err(ConfigError::WrongLength));
    let short_row = parse_yaml("[[1, 0, 0], [0, 1], [0, 0, 1]]").unwrap();
    assert_eq!(read_cell(&short_row), Err(ConfigError::WrongLength));
    let flag = parse_yaml("[[1, 0, 0], [0, 1, 0], [0, 0, true]]").unwrap();
    assert_eq!(read_cell(&flag), Err(ConfigError::UnknownType));
    let flat = parse_yaml("[1, 0, 0]").unwrap();
    assert_eq!(read_cell(&flat), Err(ConfigError::Malformed));
}

#[test]
fn unit_system_in_any_case() {
    assert_eq!(UnitSystem::new(&text("atomic")), Ok(UnitSystem { kind: UnitKind::Atomic }));
    assert_eq!(UnitSystem::new(&text("Atomic")), Ok(UnitSystem { kind: UnitKind::Atomic }));
    assert_eq!(UnitSystem::new(&text("ATOMIC")), Ok(UnitSystem { kind: UnitKind::Atomic }));
    assert_eq!(UnitSystem::new(&text("SI")), Ok(UnitSystem { kind: UnitKind::SI }));
    assert_eq!(UnitSystem::new(&text("si")), Ok(UnitSystem { kind: UnitKind::SI }));
}

#[test]
fn unit_system_that_is_unknown() {
    assert_eq!(UnitSystem::new(&text("cgs")), Err(ConfigError::UnknownUnitSystem));
    assert_eq!(UnitSystem::new(&text("")), Err(ConfigError::UnknownUnitSystem));
    assert_eq!(UnitSystem::new(&Yaml::BadValue), Err(ConfigError::UnitSystemNotString));
    assert_eq!(UnitSystem::new(&Yaml::Integer(1)), Err(ConfigError::UnitSystemNotString));
}

#[test]
fn unit_system_by_its_upper_case_name() {
    assert_eq!(UnitSystem::named("ATOMIC"), Ok(UnitSystem { kind: UnitKind::Atomic }));
    assert_eq!(UnitSystem::named("SI"), Ok(UnitSystem { kind: UnitKind::SI }));
    assert_eq!(UnitSystem::named("atomic"), Err(ConfigError::UnknownUnitSystem));
    assert_eq!(UnitSystem::named("si"), Err(ConfigError::UnknownUnitSystem));
}

#[test]
fn unit_names_and_symbols() {
    let atomic = UnitSystem { kind: UnitKind::Atomic };
    let si = UnitSystem { kind: UnitKind::SI };
    assert_eq!(atomic.name(), "Atomic units");
    assert_eq!(si.name(), "Standard International");
    assert_eq!(atomic.symbol(Quantity::Distance), "Ang.");
    assert_eq!(atomic.symbol(Quantity::Time), "ns");
    assert_eq!(atomic.symbol(Quantity::Mass), "amu");
    assert_eq!(atomic.symbol(Quantity::Charge), "e");
    assert_eq!(atomic.symbol(Quantity::Temperature), "K");
    assert_eq!(atomic.symbol(Quantity::Energy), "eV");
    assert_eq!(atomic.symbol(Quantity::Force), "N");
    assert_eq!(atomic.symbol(Quantity::Pressure), "Pa");
    assert_eq!(si.symbol(Quantity::Distance), "m");
    assert_eq!(si.symbol(Quantity::Time), "s");
    assert_eq!(si.symbol(Quantity::Mass), "kg");
    assert_eq!(si.symbol(Quantity::Charge), "C");
    assert_eq!(si.symbol(Quantity::Temperature), "K");
    assert_eq!(si.symbol(Quantity::Energy), "J");
    assert_eq!(si.symbol(Quantity::Force), "N");
    assert_eq!(si.symbol(Quantity::Pressure), "Pa");
}

#[test]
fn system_with_defaults() {
    let node = parse_yaml(&system_script("")).unwrap();
    let system = SystemDefinition::from(&node).unwrap();
    assert_eq!(system.periodicity, [false, false, false]);
    assert_eq!(system.replicas, [1, 1, 1]);
    assert_eq!(system.origin, None);
    assert_eq!(system.units, UnitSystem { kind: UnitKind::Atomic });
    assert_eq!(system.atoms.len(), 2);
    assert_eq!(system.atoms[1].id, 1);
    assert_eq!(system.cell[0][0], Number::Decimal("10.0".to_string()));
    assert_eq!(
        system.sites,
        vec![
            LatticeSite { source: 0, x: 0, y: 0, z: 0 },
            LatticeSite { source: 1, x: 0, y: 0, z: 0 }
        ]
    );
}

#[test]
fn replication_identity() {
    let absent = SystemDefinition::from(&parse_yaml(&system_script("")).unwrap()).unwrap();
    let single =
        SystemDefinition::from(&parse_yaml(&system_script("replicas: [1, 1, 1]\n")).unwrap())
            .unwrap();
    assert_eq!(absent, single);
    assert_eq!(absent.sites.len(), absent.atoms.len());
    for (id, site) in absent.sites.iter().enumerate() {
        assert_eq!(*site, LatticeSite { source: id, x: 0, y: 0, z: 0 });
        assert_eq!(absent.atoms[site.source].id, id as u64);
    }
}

#[test]
fn system_with_replicas_and_periodicity() {
    let node = parse_yaml(&system_script(
        "replicas: [2, 1, 3]\nperiodicity: xyz\norigin: [0, 0, 0.5]\n",
    ))
    .unwrap();
    let system = SystemDefinition::from(&node).unwrap();
    assert_eq!(system.periodicity, [true, true, true]);
    assert_eq!(system.replicas, [2, 1, 3]);
    assert_eq!(
        system.origin,
        Some(vec![
            Number::Integer(0),
            Number::Integer(0),
            Number::Decimal("0.5".to_string())
        ])
    );
    assert_eq!(system.atoms.len(), 2);
    assert_eq!(system.sites.len(), 12);
    assert_eq!(system.sites[2], LatticeSite { source: 0, x: 0, y: 0, z: 1 });
    assert_eq!(system.sites[11], LatticeSite { source: 1, x: 1, y: 0, z: 2 });
}

#[test]
fn system_reads_vectors_where_there_is_no_cell() {
    let node = parse_yaml(
        "vectors: [[5.0, 0, 0], [0, 5.0, 0], [0, 0, 5.0]]\nunits: SI\natoms: []\n",
    )
    .unwrap();
    let system = SystemDefinition::from(&node).unwrap();
    assert_eq!(system.cell[2][2], Number::Decimal("5.0".to_string()));
    assert_eq!(system.units, UnitSystem { kind: UnitKind::SI });
    assert!(system.atoms.is_empty());
    assert!(system.sites.is_empty());
}

#[test]
fn system_prefers_cell_to_vectors() {
    let node = parse_yaml(
        "cell: [[1, 0, 0], [0, 1, 0], [0, 0, 1]]\nvectors: 7\nunits: SI\natoms: []\n",
    )
    .unwrap();
    let system = SystemDefinition::from(&node).unwrap();
    assert_eq!(system.cell[0][0], Number::Integer(1));
}

#[test]
fn system_faults_in_their_order() {
    let no_cell = parse_yaml("units: nothing\natoms: 3\nperiodicity: q\n").unwrap();
    assert_eq!(SystemDefinition::from(&no_cell), Err(ConfigError::Malformed));
    let origin = parse_yaml(&system_script("origin: [1, 2]\nperiodicity: q\n")).unwrap();
    assert_eq!(SystemDefinition::from(&origin), Err(ConfigError::WrongLength));
    let periodicity = parse_yaml(&system_script("periodicity: q\nreplicas: [0, 1, 1]\n")).unwrap();
    assert_eq!(SystemDefinition::from(&periodicity), Err(ConfigError::UnknownPeriodicity));
    let replicas = parse_yaml(&system_script("replicas: [0, 1, 1]\n")).unwrap();
    assert_eq!(SystemDefinition::from(&replicas), Err(ConfigError::UnknownReplicas));
}

#[test]
fn system_with_faulty_atoms_or_units() {
    let atoms = parse_yaml(
        "cell: [[1, 0, 0], [0, 1, 0], [0, 0, 1]]\nunits: cgs\natoms:\n  - {name: Xx, position: [0, 0, 0]}\n",
    )
    .unwrap();
    assert_eq!(SystemDefinition::from(&atoms), Err(ConfigError::UnknownMass));
    let units = parse_yaml(
        "cell: [[1, 0, 0], [0, 1, 0], [0, 0, 1]]\nunits: cgs\natoms:\n  - {name: Ar, position: [0, 0, 0]}\n",
    )
    .unwrap();
    assert_eq!(SystemDefinition::from(&units), Err(ConfigError::UnknownUnitSystem));
    let none = parse_yaml(
        "cell: [[1, 0, 0], [0, 1, 0], [0, 0, 1]]\natoms:\n  - {name: Ar, position: [0, 0, 0]}\n",
    )
    .unwrap();
    assert_eq!(SystemDefinition::from(&none), Err(ConfigError::UnitSystemNotString));
}

#[test]
fn system_with_a_lattice_that_cannot_be_counted() {
    let node = parse_yaml(&system_script(
        "replicas: [9223372036854775807, 9223372036854775807, 9223372036854775807]\n",
    ))
    .unwrap();
    assert_eq!(SystemDefinition::from(&node), Err(ConfigError::TooManyAtoms));
}
