use vstd::prelude::*;

verus! {

/// What a run reports while it searches.  The options only select among
/// the caller's reporting channels; the search itself never performs any
/// input or output.
pub struct LoggingOptions {
    pub text: bool,
    pub image: SaveImageOption,
    pub verbosity: Verbosity,
}

impl LoggingOptions {
    /// No text log, no images, no console output.
    pub fn silent() -> (r: Self)
        ensures
            r.text == false,
            r.image == SaveImageOption::NoImages,
            r.verbosity == Verbosity::Silent,
    {
        Self { text: false, image: SaveImageOption::NoImages, verbosity: Verbosity::Silent }
    }
}

#[derive(Clone, Copy, Debug, PartialEq, Eq, Structural)]
pub enum Verbosity {
    Silent,
    Normal,
}

impl Verbosity {
    /// Whether per-iteration progress is reported on the console.
    pub fn is_normal(&self) -> (r: bool)
        ensures
            r == (*self == Verbosity::Normal),
    {
        match *self {
            Verbosity::Silent => false,
            Verbosity::Normal => true,
        }
    }
}

impl Default for Verbosity {
    fn default() -> (r: Self)
        ensures
            r == Verbosity::Normal,
    {
        Self::Normal
    }
}

/// Which snapshots of the best arrangement are rendered to an image.
#[derive(Clone, Copy, Debug, PartialEq, Eq, Structural)]
pub enum SaveImageOption {
    NoImages,
    Last,
    FirstAndLast,
    AllBest,
}

} // verus!
