//! The faults of an input document, and the kinds of error of the engine.

use vstd::prelude::*;

verus! {

/// Why an input document does not describe a simulation.
#[derive(Clone, Copy, Debug, PartialEq, Eq, Structural)]
pub enum ConfigError {
    /// The text is no well-formed document, holds no document at all, or
    /// has a line with more blanks and indicators than a script may have.
    Unreadable,
    /// The script's file name does not end in a known extension.
    UnknownExtension,
    /// A required entry is absent or of the wrong kind.
    Malformed,
    /// A list of numbers has the wrong number of elements.
    WrongLength,
    /// An element of a list of numbers is no number.
    UnknownType,
    /// The periodicity is none of the known axis strings and no list of
    /// three flags.
    UnknownPeriodicity,
    /// The replicas are no list of three counts, each at least one.
    UnknownReplicas,
    /// The super-cell holds more atoms than can be counted.
    TooManyAtoms,
    /// The name of the unit system is no string.
    UnitSystemNotString,
    /// The unit system is none of the known ones.
    UnknownUnitSystem,
    /// The integrator is none of the known ones.
    UnknownIntegrator,
    /// The potential model is none of the known ones.
    UnknownPotential,
    /// A cutoff is present and no number.
    CutoffNotNumber,
    /// A cutoff is not greater than zero.
    CutoffNotPositive,
    /// The timestep or a parameter of the potential is not greater than
    /// zero.
    NotPositive,
    /// The total time is less than zero, or no number at all.
    NegativeTime,
    /// The mass of an atom is not greater than zero.
    MassNotPositive,
    /// The rebuild frequency of the neighbour list is present and no count
    /// of at least one.
    UnknownFrequency,
    /// The logging switch of the neighbour list is present and no flag.
    LogNotBoolean,
    /// A section of the log is none of the known ones.
    UnknownSection,
    /// The ensemble is none of the known ones.
    UnknownEnsemble,
    /// An atom has no mass and its name is no element symbol, or its mass
    /// is of the wrong kind.
    UnknownMass,
    /// The charge of an atom is of the wrong kind.
    IncorrectCharge,
}

/// The kinds of error that the engine knows.
#[derive(Clone, Copy, Debug, PartialEq, Eq, Structural)]
pub enum ErrorKind {
    /// The input document does not describe a simulation.
    InvalidConfig,
    /// A quantity has a value with which the simulation has no meaning.
    NumericDegeneracy,
    /// The neighbour list was asked for an atom that it does not know.
    NeighborMiss,
    /// The potential was evaluated where it is not defined.
    DomainError,
}

/// The kind of a fault of the input document: a mass or a cutoff that is
/// not greater than zero is a numeric degeneracy, every other fault is an
/// invalid configuration.
pub open spec fn kind_of(error: ConfigError) -> ErrorKind {
    match error {
        ConfigError::CutoffNotPositive => ErrorKind::NumericDegeneracy,
        ConfigError::MassNotPositive => ErrorKind::NumericDegeneracy,
        _ => ErrorKind::InvalidConfig,
    }
}

/// What a fault is reported with.
pub open spec fn message_of(error: ConfigError) -> Seq<char> {
    match error {
        ConfigError::Unreadable => "Failed to parse script file"@,
        ConfigError::UnknownExtension => "Unknown file extension"@,
        ConfigError::Malformed => "A required entry is missing or of the wrong kind"@,
        ConfigError::WrongLength => "A list has the wrong number of elements"@,
        ConfigError::UnknownType => "Unknown type"@,
        ConfigError::UnknownPeriodicity => "Unknown periodicity"@,
        ConfigError::UnknownReplicas => "Unknown replicas"@,
        ConfigError::TooManyAtoms => "The replicated system holds too many atoms"@,
        ConfigError::UnitSystemNotString => "Unit system name must be a string"@,
        ConfigError::UnknownUnitSystem => "Unknown unit system"@,
        ConfigError::UnknownIntegrator => "Unknown integrator"@,
        ConfigError::UnknownPotential => "Potential model not implemented"@,
        ConfigError::CutoffNotNumber => "Cutoff must be a real number"@,
        ConfigError::CutoffNotPositive => "Cutoff must be positive"@,
        ConfigError::NotPositive => "Timestep and parameters of the potential must be positive"@,
        ConfigError::NegativeTime => "Total time must not be negative"@,
        ConfigError::MassNotPositive => "Mass must be positive"@,
        ConfigError::UnknownFrequency => "Frequency must be a positive integer"@,
        ConfigError::LogNotBoolean => "Log must be a boolean"@,
        ConfigError::UnknownSection => "Unknown section type"@,
        ConfigError::UnknownEnsemble => "Unknown ensemble type"@,
        ConfigError::UnknownMass => "Failed to find mass for element"@,
        ConfigError::IncorrectCharge => "Incorrect charge for element"@,
    }
}

impl ConfigError {
    /// The message that the fault is reported with.
    pub fn message(&self) -> (r: &'static str)
        ensures
            r@ == message_of(*self),
    {
        match self {
            ConfigError::Unreadable => "Failed to parse script file",
            ConfigError::UnknownExtension => "Unknown file extension",
            ConfigError::Malformed => "A required entry is missing or of the wrong kind",
            ConfigError::WrongLength => "A list has the wrong number of elements",
            ConfigError::UnknownType => "Unknown type",
            ConfigError::UnknownPeriodicity => "Unknown periodicity",
            ConfigError::UnknownReplicas => "Unknown replicas",
            ConfigError::TooManyAtoms => "The replicated system holds too many atoms",
            ConfigError::UnitSystemNotString => "Unit system name must be a string",
            ConfigError::UnknownUnitSystem => "Unknown unit system",
            ConfigError::UnknownIntegrator => "Unknown integrator",
            ConfigError::UnknownPotential => "Potential model not implemented",
            ConfigError::CutoffNotNumber => "Cutoff must be a real number",
            ConfigError::CutoffNotPositive => "Cutoff must be positive",
            ConfigError::NotPositive => "Timestep and parameters of the potential must be positive",
            ConfigError::NegativeTime => "Total time must not be negative",
            ConfigError::MassNotPositive => "Mass must be positive",
            ConfigError::UnknownFrequency => "Frequency must be a positive integer",
            ConfigError::LogNotBoolean => "Log must be a boolean",
            ConfigError::UnknownSection => "Unknown section type",
            ConfigError::UnknownEnsemble => "Unknown ensemble type",
            ConfigError::UnknownMass => "Failed to find mass for element",
            ConfigError::IncorrectCharge => "Incorrect charge for element",
        }
    }

    /// The kind of the fault.
    pub fn kind(&self) -> (r: ErrorKind)
        ensures
            r == kind_of(*self),
    {
        match self {
            ConfigError::CutoffNotPositive => ErrorKind::NumericDegeneracy,
            ConfigError::MassNotPositive => ErrorKind::NumericDegeneracy,
            _ => ErrorKind::InvalidConfig,
        }
    }
}

} // verus!
