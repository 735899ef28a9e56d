//! The render configuration.

use vstd::prelude::*;
use vstd::string::*;

verus! {

/// Configuration for generating one fractal image.
#[derive(Debug, Clone)]
pub struct Config {
    /// Height of the output image, in pixels.
    pub height: usize,
    /// Width of the output image, in pixels.
    pub width: usize,
    /// Number of points of the orbit.
    pub npoints: usize,
    /// Name of the iterated function system to sample.
    pub ifs_name: String,
    /// Dimension of the iterated function system.
    pub ndims: usize,
    /// Name of the random number generator.
    pub rng_name: String,
    /// Seed of the random number generator.
    pub seed: u64,
}

/// The values of the default configuration, as a predicate on a configuration.
pub open spec fn is_default_config(c: Config) -> bool {
    &&& c.height == 384
    &&& c.width == 384
    &&& c.npoints == 100_000
    &&& c.ifs_name@ == "SigmaFactorIFS"@
    &&& c.ndims == 2
    &&& c.rng_name@ == "Xoshiro256PlusPlus"@
    &&& c.seed == 42
}

impl Config {
    /// A configuration with the default values: a 384 by 384 image of
    /// 100000 points, seed 42.
    pub fn new() -> (c: Self)
        ensures
            is_default_config(c),
    {
        Config {
            height: 384,
            width: 384,
            npoints: 100_000,
            ifs_name: String::from_str("SigmaFactorIFS"),
            ndims: 2,
            rng_name: String::from_str("Xoshiro256PlusPlus"),
            seed: 42,
        }
    }
}

impl Default for Config {
    fn default() -> (c: Self)
        ensures
            is_default_config(c),
    {
        Config::new()
    }
}

} // verus!
