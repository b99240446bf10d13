//! The formatter's settings.
use vstd::prelude::*;

verus! {

/// Settings read from a project's configuration file.
#[derive(Debug, Clone)]
pub struct Config {
    /// The column past which a call chain or an array is broken over lines.
    pub max_width: usize,
    /// Path patterns to leave unformatted.
    pub exclude: Vec<String>,
}

/// The maximum width where none is given: 80 columns.
pub fn default_max_width() -> (r: usize)
    ensures
        r == 80,
{
    80
}

impl Default for Config {
    /// The default width and no exclusions.
    fn default() -> (r: Self)
        ensures
            r.max_width == 80,
            r.exclude@.len() == 0,
    {
        Config { max_width: default_max_width(), exclude: Vec::new() }
    }
}

impl Config {
    /// The settings to use given what reading the configuration file gave:
    /// those it holds, or, where it could not be read or parsed, the default
    /// width with no exclusions.
    pub fn or_default(read: Option<Config>) -> (r: Config)
        ensures
            read matches Some(c) ==> r.max_width == c.max_width && r.exclude@ == c.exclude@,
            read is None ==> r.max_width == 80 && r.exclude@.len() == 0,
    {
        match read {
            Some(c) => c,
            None => Config { max_width: 80, exclude: Vec::new() },
        }
    }
}

} // verus!
