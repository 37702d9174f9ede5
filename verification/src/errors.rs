use vstd::prelude::*;

verus! {

/// Why evaluating a module declaration failed.  Evaluation aborts on the
/// first error; no partial descriptor is ever produced.
#[derive(Debug, PartialEq, Eq)]
pub enum ConfigError {
    /// The source text does not follow the restricted grammar.
    Parse,
    /// The source contains no top-level `module(...)` call.
    NoModuleDeclaration,
    /// A capability token outside the fixed vocabulary; carries the token.
    UnknownCapability(String),
    /// A mount declaration could not be interpreted: a permission value of
    /// the wrong shape, or an empty host or guest path.
    MountInterpretation,
    /// Evaluation finished on a value that is not a module descriptor.
    Downcast,
}

/// The mathematical model of an evaluation failure.
pub enum ConfigErrV {
    Parse,
    NoModuleDeclaration,
    UnknownCapability(Seq<char>),
    MountInterpretation,
    Downcast,
}

impl View for ConfigError {
    type V = ConfigErrV;

    open spec fn view(&self) -> ConfigErrV {
        match self {
            ConfigError::Parse => ConfigErrV::Parse,
            ConfigError::NoModuleDeclaration => ConfigErrV::NoModuleDeclaration,
            ConfigError::UnknownCapability(t) => ConfigErrV::UnknownCapability(t@),
            ConfigError::MountInterpretation => ConfigErrV::MountInterpretation,
            ConfigError::Downcast => ConfigErrV::Downcast,
        }
    }
}

/// Why resolving a module name against a plugin directory failed.
#[derive(Debug, PartialEq, Eq)]
pub enum PluginError {
    /// No artifact in the directory matches the module; carries the name.
    NotFound(String),
    /// More than one artifact matches the module; carries the name.
    Ambiguous(String),
}

/// Why an artifact's exported interface was rejected against the schema.
/// Each variant carries enough context to identify the offending function.
#[derive(Debug, PartialEq, Eq)]
pub enum ValidationError {
    /// The artifact exports no function of this name.
    MissingExport(String),
    /// A parameter list differs from the schema; carries the function name
    /// and the first offending position (the parameter count when the
    /// lists have different lengths).
    ParameterTypeMismatch { function: String, index: usize },
    /// The returned values differ from the schema; carries the function name.
    ReturnTypeMismatch(String),
    /// The schema uses a type tag outside the fixed vocabulary; carries the
    /// tag.  This is a configuration error, distinct from a mismatch.
    SchemaTypeMapping(String),
}

/// Misuse of the process-wide interface schema slot.
#[derive(Debug, Clone, Copy, PartialEq, Eq, Structural)]
pub enum SchemaError {
    /// The slot was already filled; the first value remains in effect.
    AlreadySet,
    /// The slot was read before any schema was stored.
    NotSet,
}

} // verus!
