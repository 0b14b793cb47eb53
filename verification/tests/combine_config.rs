use partial_config::{Any, Build, Last, Monoid, Phase, Run, Select, Semigroup, Sum};
use std::path::PathBuf;

struct Config<T: Phase> {
    output_file: Select<T, Last<PathBuf>, Option<PathBuf>>,
    verbose: Select<T, Sum<u32>, u32>,
    debug: Select<T, Any, bool>,
}

impl Config<Build> {
    fn combine(self, rhs: Self) -> Self {
        Self {
            output_file: self.output_file.combine(rhs.output_file),
            verbose: self.verbose.combine(rhs.verbose),
            debug: self.debug.combine(rhs.debug),
        }
    }

    fn build(self) -> Config<Run> {
        Config {
            output_file: self.output_file.into(),
            verbose: self.verbose.into(),
            debug: self.debug.into(),
        }
    }
}

impl Default for Config<Build> {
    fn default() -> Self {
        Self {
            output_file: Default::default(),
            verbose: Default::default(),
            debug: Default::default(),
        }
    }
}

impl Config<Run> {
    fn build(self) -> Config<Build> {
        Config {
            output_file: self.output_file.into(),
            verbose: self.verbose.into(),
            debug: self.debug.into(),
        }
    }
}

#[test]
fn combinging_three_config_types() {
    let config = Config::<Build>::default();
    let env_config = Config::<Build> {
        verbose: 1.into(),
        debug: true.into(),
        ..Default::default()
    };
    let arg_config = Config::<Build> {
        verbose: 2.into(),
        debug: false.into(),
        output_file: Some(PathBuf::from("/usr/bin/test")).into(),
    };

    let config = config.combine(env_config.into()).combine(arg_config.into());

    assert_eq!(&Last::from(PathBuf::from("/usr/bin/test")), config.output_file.get());
    assert_eq!(&Sum(3), config.verbose.get());
    assert_eq!(&Any(true), config.debug.get());
}

#[test]
fn initial_config_should_be_build_values() {
    let config = Config::<Build>::default();

    assert_eq!(&Last::empty(), config.output_file.get());
    assert_eq!(&Sum::<u32>::empty(), config.verbose.get());
    assert_eq!(&Any::empty(), config.debug.get());
}

#[test]
fn default_config_build() {
    let config = Config::<Build>::default();

    let config = config.build();

    assert_eq!(&None, config.output_file.value());
    assert_eq!(0, config.verbose.get());
    assert_eq!(false, config.debug.get());
}

#[test]
fn build_and_then_build_again_should_be_same_as_initial() {
    let config = Config::<Build>::default();

    let config = config.build();
    let config = config.build();

    assert_eq!(&Last::empty(), config.output_file.get());
    assert_eq!(&Sum::<u32>::empty(), config.verbose.get());
    assert_eq!(&Any::empty(), config.debug.get());
}

#[test]
fn combined_config_resolves_to_the_merged_values() {
    let env_config = Config::<Build> {
        verbose: 1.into(),
        debug: true.into(),
        ..Default::default()
    };
    let arg_config = Config::<Build> {
        verbose: 2.into(),
        debug: false.into(),
        output_file: Some(PathBuf::from("/usr/bin/test")).into(),
    };

    let config = Config::<Build>::default()
        .combine(env_config)
        .combine(arg_config)
        .build();

    assert_eq!(&Some(PathBuf::from("/usr/bin/test")), config.output_file.value());
    assert_eq!(3u32, config.verbose.get());
    assert_eq!(true, config.debug.get());
}

#[test]
fn resolved_config_stays_the_same_after_a_round_trip() {
    let arg_config = Config::<Build> {
        verbose: 2.into(),
        debug: true.into(),
        output_file: Some(PathBuf::from("/tmp/out")).into(),
    };

    let once = arg_config.build();
    let first = (
        once.output_file.value().clone(),
        *once.verbose.value(),
        *once.debug.value(),
    );
    let again = once.build().build();

    assert_eq!(&first.0, again.output_file.value());
    assert_eq!(&first.1, again.verbose.value());
    assert_eq!(&first.2, again.debug.value());
    assert_eq!(Some(PathBuf::from("/tmp/out")), first.0);
    assert_eq!(2, first.1);
    assert_eq!(true, first.2);
}
