use moldyn::dynamics::integrators::verlet::VerletIntegrator;
use moldyn::dynamics::DynamicsIntegrator;
use moldyn::dynamics::neighbors::NeighborMiss;
use moldyn::error::ConfigError;
use moldyn::error::ErrorKind;
use moldyn::io::input::parse_yaml;
use moldyn::io::input::Number;
use moldyn::statics::models::lj::LennardJonesModel;
use moldyn::statics::models::PotentialModel;
use moldyn::thermodynamics::ensemble::Ensemble;
use moldyn::thermodynamics::ensemble::NVE;
use moldyn::thermodynamics::Thermodynamics;
use yaml_rust::Yaml;

fn decimal(text: &str) -> Number {
    Number::Decimal(text.to_string())
}

#[test]
fn lennard_jones_with_a_cutoff() {
    let node = parse_yaml("model: lj\nparameters: {epsilon: 0.0104, sigma: 3.4}\ncutoff: 8.5\n")
        .unwrap();
    assert_eq!(
        PotentialModel::from(&node),
        Ok(PotentialModel::LennardJones(LennardJonesModel {
            epsilon: decimal("0.0104"),
            sigma: decimal("3.4"),
            cutoff: Some(decimal("8.5")),
        }))
    );
}

#[test]
fn lennard_jones_without_a_cutoff() {
    let node = parse_yaml("model: lj\nparameters: {epsilon: 1, sigma: 1.0}\n").unwrap();
    assert_eq!(
        LennardJonesModel::initialize(&node),
        Ok(LennardJonesModel {
            epsilon: Number::Integer(1),
            sigma: decimal("1.0"),
            cutoff: None,
        })
    );
}

#[test]
fn lennard_jones_that_is_faulty() {
    let no_epsilon = parse_yaml("parameters: {sigma: 1.0}\ncutoff: far\n").unwrap();
    assert_eq!(LennardJonesModel::initialize(&no_epsilon), Err(ConfigError::Malformed));
    let no_sigma = parse_yaml("parameters: {epsilon: 1.0, sigma: wide}\n").unwrap();
    assert_eq!(LennardJonesModel::initialize(&no_sigma), Err(ConfigError::Malformed));
    let no_parameters = parse_yaml("cutoff: 2.5\n").unwrap();
    assert_eq!(LennardJonesModel::initialize(&no_parameters), Err(ConfigError::Malformed));
    let cutoff = parse_yaml("parameters: {epsilon: 1.0, sigma: 1.0}\ncutoff: far\n").unwrap();
    assert_eq!(LennardJonesModel::initialize(&cutoff), Err(ConfigError::CutoffNotNumber));
    let null = parse_yaml("parameters: {epsilon: 1.0, sigma: 1.0}\ncutoff: ~\n").unwrap();
    assert_eq!(LennardJonesModel::initialize(&null), Err(ConfigError::CutoffNotNumber));
}

#[test]
fn lennard_jones_that_is_not_positive() {
    let read = |text: &str| LennardJonesModel::initialize(&parse_yaml(text).unwrap());
    assert_eq!(
        read("parameters: {epsilon: 0.0, sigma: -1.0}\ncutoff: 0\n"),
        Err(ConfigError::NotPositive)
    );
    assert_eq!(read("parameters: {epsilon: -1, sigma: 1.0}\n"), Err(ConfigError::NotPositive));
    assert_eq!(
        read("parameters: {epsilon: 1.0, sigma: 0}\ncutoff: 0\n"),
        Err(ConfigError::NotPositive)
    );
    assert_eq!(
        read("parameters: {epsilon: 1.0, sigma: .nan}\n"),
        Err(ConfigError::NotPositive)
    );
    assert_eq!(
        read("parameters: {epsilon: 1.0, sigma: 1.0}\ncutoff: 0.0\n"),
        Err(ConfigError::CutoffNotPositive)
    );
    assert_eq!(
        read("parameters: {epsilon: 1.0, sigma: 1.0}\ncutoff: -2.5\n"),
        Err(ConfigError::CutoffNotPositive)
    );
    assert_eq!(
        read("parameters: {epsilon: 1e-3, sigma: 1.0}\ncutoff: .inf\n"),
        Ok(LennardJonesModel {
            epsilon: decimal("1e-3"),
            sigma: decimal("1.0"),
            cutoff: Some(decimal(".inf")),
        })
    );
}

#[test]
fn potential_that_is_unknown() {
    let morse = parse_yaml("model: morse\nparameters: {epsilon: 1.0, sigma: 1.0}\n").unwrap();
    assert_eq!(PotentialModel::from(&morse), Err(ConfigError::UnknownPotential));
    let upper = parse_yaml("model: LJ\nparameters: {epsilon: 1.0, sigma: 1.0}\n").unwrap();
    assert_eq!(PotentialModel::from(&upper), Err(ConfigError::UnknownPotential));
    let none = parse_yaml("parameters: {epsilon: 1.0, sigma: 1.0}\n").unwrap();
    assert_eq!(PotentialModel::from(&none), Err(ConfigError::UnknownPotential));
    let number = parse_yaml("model: 3\n").unwrap();
    assert_eq!(PotentialModel::from(&number), Err(ConfigError::UnknownPotential));
    let faulty = parse_yaml("model: lj\n").unwrap();
    assert_eq!(PotentialModel::from(&faulty), Err(ConfigError::Malformed));
}

#[test]
fn verlet_integrator() {
    let node = parse_yaml("integrator: {type: verlet}\ntimestep: 0.002\n").unwrap();
    assert_eq!(
        DynamicsIntegrator::from(&node),
        Ok(DynamicsIntegrator::Verlet(VerletIntegrator { timestep: decimal("0.002") }))
    );
    assert_eq!(VerletIntegrator::from(&node), Ok(VerletIntegrator { timestep: decimal("0.002") }));
    assert_eq!(
        VerletIntegrator::new(Number::Integer(2)),
        VerletIntegrator { timestep: Number::Integer(2) }
    );
}

#[test]
fn integrator_that_is_faulty() {
    let euler = parse_yaml("integrator: {type: euler}\ntimestep: 0.002\n").unwrap();
    assert_eq!(DynamicsIntegrator::from(&euler), Err(ConfigError::UnknownIntegrator));
    let euler_without_step = parse_yaml("integrator: {type: euler}\n").unwrap();
    assert_eq!(DynamicsIntegrator::from(&euler_without_step), Err(ConfigError::UnknownIntegrator));
    let none = parse_yaml("timestep: 0.002\n").unwrap();
    assert_eq!(DynamicsIntegrator::from(&none), Err(ConfigError::Malformed));
    let number = parse_yaml("integrator: {type: 1}\ntimestep: 0.002\n").unwrap();
    assert_eq!(DynamicsIntegrator::from(&number), Err(ConfigError::Malformed));
    let no_step = parse_yaml("integrator: {type: verlet}\ntimestep: '0.002'\n").unwrap();
    assert_eq!(DynamicsIntegrator::from(&no_step), Err(ConfigError::Malformed));
    assert_eq!(VerletIntegrator::from(&no_step), Err(ConfigError::Malformed));
    let zero = parse_yaml("integrator: {type: verlet}\ntimestep: 0.0\n").unwrap();
    assert_eq!(DynamicsIntegrator::from(&zero), Err(ConfigError::NotPositive));
    assert_eq!(VerletIntegrator::from(&zero), Err(ConfigError::NotPositive));
    let negative = parse_yaml("integrator: {type: verlet}\ntimestep: -1\n").unwrap();
    assert_eq!(VerletIntegrator::from(&negative), Err(ConfigError::NotPositive));
    assert_eq!(VerletIntegrator::from(&Yaml::BadValue), Err(ConfigError::Malformed));
}

#[test]
fn ensemble_of_constant_energy() {
    let node = parse_yaml("type: nve\n").unwrap();
    assert_eq!(Ensemble::from(&node), Ok(Ensemble::NVE(NVE {})));
    let outer = parse_yaml("ensemble: {type: nve}\n").unwrap();
    assert_eq!(
        Thermodynamics::from(&outer),
        Ok(Thermodynamics { ensemble: Ensemble::NVE(NVE {}) })
    );
}

#[test]
fn ensemble_that_is_unknown() {
    let nvt = parse_yaml("type: nvt\n").unwrap();
    assert_eq!(Ensemble::from(&nvt), Err(ConfigError::UnknownEnsemble));
    let upper = parse_yaml("type: NVE\n").unwrap();
    assert_eq!(Ensemble::from(&upper), Err(ConfigError::UnknownEnsemble));
    let number = parse_yaml("type: 1\n").unwrap();
    assert_eq!(Ensemble::from(&number), Err(ConfigError::Malformed));
    assert_eq!(Ensemble::from(&Yaml::BadValue), Err(ConfigError::Malformed));
    let outer = parse_yaml("ensemble: {type: npt}\n").unwrap();
    assert_eq!(Thermodynamics::from(&outer), Err(ConfigError::UnknownEnsemble));
    assert_eq!(Thermodynamics::from(&Yaml::BadValue), Err(ConfigError::Malformed));
}

#[test]
fn update_leaves_the_conditions() {
    let mut thermodynamics = Thermodynamics { ensemble: Ensemble::NVE(NVE {}) };
    thermodynamics.update();
    assert_eq!(thermodynamics, Thermodynamics { ensemble: Ensemble::NVE(NVE {}) });
}

#[test]
fn kinds_of_error() {
    assert_eq!(ConfigError::CutoffNotPositive.kind(), ErrorKind::NumericDegeneracy);
    assert_eq!(ConfigError::MassNotPositive.kind(), ErrorKind::NumericDegeneracy);
    for error in [
        ConfigError::Unreadable,
        ConfigError::UnknownExtension,
        ConfigError::Malformed,
        ConfigError::WrongLength,
        ConfigError::UnknownType,
        ConfigError::UnknownPeriodicity,
        ConfigError::UnknownReplicas,
        ConfigError::TooManyAtoms,
        ConfigError::UnitSystemNotString,
        ConfigError::UnknownUnitSystem,
        ConfigError::UnknownIntegrator,
        ConfigError::UnknownPotential,
        ConfigError::CutoffNotNumber,
        ConfigError::NotPositive,
        ConfigError::NegativeTime,
        ConfigError::UnknownFrequency,
        ConfigError::LogNotBoolean,
        ConfigError::UnknownSection,
        ConfigError::UnknownEnsemble,
        ConfigError::UnknownMass,
        ConfigError::IncorrectCharge,
    ] {
        assert_eq!(error.kind(), ErrorKind::InvalidConfig);
    }
    assert_eq!(NeighborMiss { index: 3 }.kind(), ErrorKind::NeighborMiss);
}

#[test]
fn messages_of_faults() {
    assert_eq!(ConfigError::Unreadable.message(), "Failed to parse script file");
    assert_eq!(ConfigError::UnknownExtension.message(), "Unknown file extension");
    assert_eq!(ConfigError::UnknownPeriodicity.message(), "Unknown periodicity");
    assert_eq!(ConfigError::UnknownReplicas.message(), "Unknown replicas");
    assert_eq!(ConfigError::UnknownUnitSystem.message(), "Unknown unit system");
    assert_eq!(ConfigError::UnitSystemNotString.message(), "Unit system name must be a string");
    assert_eq!(ConfigError::UnknownIntegrator.message(), "Unknown integrator");
    assert_eq!(ConfigError::UnknownPotential.message(), "Potential model not implemented");
    assert_eq!(ConfigError::CutoffNotNumber.message(), "Cutoff must be a real number");
    assert_eq!(ConfigError::LogNotBoolean.message(), "Log must be a boolean");
    assert_eq!(ConfigError::UnknownEnsemble.message(), "Unknown ensemble type");
    assert_eq!(ConfigError::UnknownType.message(), "Unknown type");
    assert_eq!(ConfigError::UnknownMass.message(), "Failed to find mass for element");
    assert_eq!(ConfigError::IncorrectCharge.message(), "Incorrect charge for element");
    assert_eq!(ConfigError::MassNotPositive.message(), "Mass must be positive");
    assert_eq!(ConfigError::CutoffNotPositive.message(), "Cutoff must be positive");
}
