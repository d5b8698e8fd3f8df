//! Per-context state owned by the boundary layer.
//!
//! A `Context` pairs the configuration a context was created with and the
//! execution counter the boundary maintains for it.  The engine-side state
//! of a context lives with the engine collaborator and is reached through
//! the handle alone.
use vstd::prelude::*;

verus! {

/// Configuration a context is created with, decoded from the raw
/// boundary arguments.
#[derive(Clone, Copy)]
pub struct Config {
    pub extensions_enabled: bool,
    pub logging_enabled: bool,
    /// `None` when the caller passed a negative seed, which means
    /// "no explicit seed: let the engine choose".
    pub seed: Option<u32>,
}

/// Boundary-owned state of one live script-execution context.
#[derive(Clone, Copy)]
pub struct Context {
    pub config: Config,
    /// Incremented once per successful evaluation; never touched by
    /// failed evaluations or by side-effect-only execution.
    pub exec_count: usize,
}

/// The state a freshly created context starts in.
pub open spec fn fresh_context(config: Config) -> Context {
    Context { config, exec_count: 0 }
}

/// How the raw boundary arguments decode into a configuration:
/// any non-zero flag means true; a negative seed means "unset",
/// a non-negative one is passed through as its low 32 bits.
pub open spec fn config_of(enable_extensions: i32, enable_logging: i32, random_seed: i64) -> Config {
    Config {
        extensions_enabled: enable_extensions != 0,
        logging_enabled: enable_logging != 0,
        seed: if random_seed < 0 {
            None
        } else {
            Some((random_seed % 0x1_0000_0000) as u32)
        },
    }
}

/// Decodes the raw creation arguments of the boundary call into a
/// configuration for the engine collaborator.
pub fn marshal_config(enable_extensions: i32, enable_logging: i32, random_seed: i64) -> (c: Config)
    ensures
        c == config_of(enable_extensions, enable_logging, random_seed),
{
    let seed: Option<u32> = if random_seed < 0 {
        None
    } else {
        Some((random_seed % 0x1_0000_0000) as u32)
    };
    Config { extensions_enabled: enable_extensions != 0, logging_enabled: enable_logging != 0, seed }
}

} // verus!
