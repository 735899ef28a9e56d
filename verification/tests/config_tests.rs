use rand::{Rng, SeedableRng};
use rand_xoshiro::Xoshiro256PlusPlus;
use rust_random_logo::{decimal_string, seeded_rng, validate_config, Config, Error};

fn sample_config() -> Config {
    Config {
        height: 100,
        width: 100,
        npoints: 1000,
        ifs_name: "SigmaFactorIFS".to_string(),
        ndims: 2,
        rng_name: "Xoshiro256PlusPlus".to_string(),
        seed: 42,
    }
}

fn config_detail(r: Result<(), Error>) -> String {
    match r {
        Err(Error::ConfigError(detail)) => detail,
        Err(Error::RenderError(detail)) => panic!("a render error: {}", detail),
        Ok(()) => panic!("the configuration was accepted"),
    }
}

#[test]
fn new_config_has_the_default_values() {
    let config = Config::new();
    assert_eq!(config.height, 384);
    assert_eq!(config.width, 384);
    assert_eq!(config.npoints, 100_000);
    assert_eq!(config.ifs_name, "SigmaFactorIFS");
    assert_eq!(config.ndims, 2);
    assert_eq!(config.rng_name, "Xoshiro256PlusPlus");
    assert_eq!(config.seed, 42);
}

#[test]
fn default_config_equals_new() {
    let a = Config::default();
    let b = Config::new();
    assert_eq!(a.height, b.height);
    assert_eq!(a.width, b.width);
    assert_eq!(a.npoints, b.npoints);
    assert_eq!(a.ifs_name, b.ifs_name);
    assert_eq!(a.ndims, b.ndims);
    assert_eq!(a.rng_name, b.rng_name);
    assert_eq!(a.seed, b.seed);
}

#[test]
fn supported_config_is_accepted() {
    assert!(validate_config(&sample_config()).is_ok());
    assert!(validate_config(&Config::new()).is_ok());
    assert!(seeded_rng(&sample_config()).is_ok());
}

#[test]
fn unknown_ifs_is_rejected() {
    let mut config = sample_config();
    config.ifs_name = "Unknown".to_string();
    assert_eq!(config_detail(validate_config(&config)), "Unknown IFS: Unknown");
    assert!(matches!(seeded_rng(&config), Err(Error::ConfigError(_))));
}

#[test]
fn empty_ifs_name_is_rejected() {
    let mut config = sample_config();
    config.ifs_name = String::new();
    assert_eq!(config_detail(validate_config(&config)), "Unknown IFS: ");
}

#[test]
fn ifs_name_is_case_sensitive() {
    let mut config = sample_config();
    config.ifs_name = "sigmafactorifs".to_string();
    assert_eq!(config_detail(validate_config(&config)), "Unknown IFS: sigmafactorifs");
}

#[test]
fn three_dimensions_are_rejected() {
    let mut config = sample_config();
    config.ndims = 3;
    assert_eq!(config_detail(validate_config(&config)), "Unsupported dimension: 3");
    assert!(matches!(seeded_rng(&config), Err(Error::ConfigError(_))));
}

#[test]
fn zero_and_large_dimensions_are_rejected() {
    let mut config = sample_config();
    config.ndims = 0;
    assert_eq!(config_detail(validate_config(&config)), "Unsupported dimension: 0");
    config.ndims = 1234567890;
    assert_eq!(config_detail(validate_config(&config)), "Unsupported dimension: 1234567890");
}

#[test]
fn unknown_rng_is_rejected() {
    let mut config = sample_config();
    config.rng_name = "MersenneTwister".to_string();
    assert_eq!(config_detail(validate_config(&config)), "Unknown RNG: MersenneTwister");
    assert!(matches!(seeded_rng(&config), Err(Error::ConfigError(_))));
}

#[test]
fn ifs_is_checked_before_dimension_and_dimension_before_rng() {
    let mut config = sample_config();
    config.ifs_name = "Other".to_string();
    config.ndims = 3;
    config.rng_name = "Other".to_string();
    assert_eq!(config_detail(validate_config(&config)), "Unknown IFS: Other");
    config.ifs_name = "SigmaFactorIFS".to_string();
    assert_eq!(config_detail(validate_config(&config)), "Unsupported dimension: 3");
    config.ndims = 2;
    assert_eq!(config_detail(validate_config(&config)), "Unknown RNG: Other");
}

#[test]
fn seeded_rng_is_the_generator_of_the_seed() {
    let config = sample_config();
    let rng = seeded_rng(&config).unwrap();
    assert_eq!(rng, Xoshiro256PlusPlus::seed_from_u64(42));
    let mut other = sample_config();
    other.seed = 43;
    assert_ne!(seeded_rng(&other).unwrap(), rng);
}

#[test]
fn seeded_rng_draws_what_a_fresh_generator_draws() {
    let mut config = sample_config();
    config.seed = 99;
    let mut a = seeded_rng(&config).unwrap();
    let mut b = Xoshiro256PlusPlus::seed_from_u64(99);
    for _ in 0..16 {
        assert_eq!(a.gen_range(0..1_000_000u64), b.gen_range(0..1_000_000u64));
    }
}

#[test]
fn error_messages_carry_prefix_and_detail() {
    let e = Error::ConfigError("Unknown IFS: Unknown".to_string());
    assert_eq!(e.message(), "Failed to load configuration: Unknown IFS: Unknown");
    let e = Error::RenderError("no canvas".to_string());
    assert_eq!(e.message(), "Failed to render image: no canvas");
    let e = Error::RenderError(String::new());
    assert_eq!(e.message(), "Failed to render image: ");
}

#[test]
fn rejected_config_message() {
    let mut config = sample_config();
    config.ndims = 3;
    let e = validate_config(&config).unwrap_err();
    assert_eq!(e.message(), "Failed to load configuration: Unsupported dimension: 3");
}

#[test]
fn decimal_numerals() {
    assert_eq!(decimal_string(0), "0");
    assert_eq!(decimal_string(7), "7");
    assert_eq!(decimal_string(9), "9");
    assert_eq!(decimal_string(10), "10");
    assert_eq!(decimal_string(384), "384");
    assert_eq!(decimal_string(100_000), "100000");
    assert_eq!(decimal_string(1234567890), "1234567890");
    assert_eq!(decimal_string(usize::MAX), format!("{}", usize::MAX));
}
