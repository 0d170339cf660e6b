//! The declarative project feature configuration: plain optional-field
//! structs whose accessors supply documented defaults.

use vstd::prelude::*;

verus! {

/// Declares hemtt_config's `Options` so it can stand as the config field of
/// the features struct; the value is carried through opaque and never read
/// here.
#[verifier::external_type_specification]
#[verifier::external_body]
pub struct ExOptions(hemtt_config::Options);

/// Relies on `<hemtt_config::Options as Default>::default`: the config
/// parser's own defaults, of which nothing needs to be known here.
#[verifier::external_body]
fn default_options() -> hemtt_config::Options {
    hemtt_config::Options::default()
}

/// Options used only during development.
#[derive(Debug, Clone)]
pub struct DevOptions {
    pub exclude: Vec<String>,
}

impl DevOptions {
    /// Paths excluded during development.
    pub fn exclude(&self) -> (r: &[String])
        ensures
            r@ == self.exclude@,
    {
        self.exclude.as_slice()
    }
}

impl Default for DevOptions {
    /// No paths are excluded by default.
    fn default() -> (r: Self)
        ensures
            r.exclude@.len() == 0,
    {
        DevOptions { exclude: Vec::new() }
    }
}

/// Options for launching the game.
#[derive(Debug, Clone)]
pub struct LaunchOptions {
    pub workshop: Vec<String>,
    pub parameters: Vec<String>,
}

impl LaunchOptions {
    /// Workshop mods that should be launched with the mod.
    pub fn workshop(&self) -> (r: &[String])
        ensures
            r@ == self.workshop@,
    {
        self.workshop.as_slice()
    }

    /// Extra launch parameters.
    pub fn parameters(&self) -> (r: &[String])
        ensures
            r@ == self.parameters@,
    {
        self.parameters.as_slice()
    }
}

impl Default for LaunchOptions {
    /// No workshop mods and no extra parameters by default.
    fn default() -> (r: Self)
        ensures
            r.workshop@.len() == 0,
            r.parameters@.len() == 0,
    {
        LaunchOptions { workshop: Vec::new(), parameters: Vec::new() }
    }
}

/// Options for building.
#[derive(Debug, Clone)]
pub struct BuildOptions {
    pub optional_mod_folders: Option<bool>,
}

impl BuildOptions {
    /// Should optionals be built into their own mod? Defaults to true when
    /// not set.
    pub fn optional_mod_folders(&self) -> (r: bool)
        ensures
            r == match self.optional_mod_folders {
                Some(b) => b,
                None => true,
            },
    {
        match self.optional_mod_folders {
            Some(optional) => optional,
            None => true,
        }
    }
}

impl Default for BuildOptions {
    /// The optional-mod-folders choice is unset by default, so the accessor
    /// answers true.
    fn default() -> (r: Self)
        ensures
            r.optional_mod_folders is None,
    {
        BuildOptions { optional_mod_folders: None }
    }
}

/// The feature configuration of a project: config-parser options and the
/// development, launch and build options, with their defaults.
pub struct Features {
    pub config: hemtt_config::Options,
    pub dev: DevOptions,
    pub launch: LaunchOptions,
    pub build: BuildOptions,
    pub pbo_prefix_allow_leading_slash: Option<bool>,
}

impl Features {
    /// Options for the config parser.
    pub fn config(&self) -> (r: &hemtt_config::Options)
        ensures
            *r == self.config,
    {
        &self.config
    }

    /// Options used only during development.
    pub fn dev(&self) -> (r: &DevOptions)
        ensures
            *r == self.dev,
    {
        &self.dev
    }

    /// Options for launching the game.
    pub fn launch(&self) -> (r: &LaunchOptions)
        ensures
            *r == self.launch,
    {
        &self.launch
    }

    /// Options for building.
    pub fn build(&self) -> (r: &BuildOptions)
        ensures
            *r == self.build,
    {
        &self.build
    }

    /// Can PBO prefixes have a leading slash? Defaults to false when not
    /// set.
    pub fn pbo_prefix_allow_leading_slash(&self) -> (r: bool)
        ensures
            r == match self.pbo_prefix_allow_leading_slash {
                Some(b) => b,
                None => false,
            },
    {
        match self.pbo_prefix_allow_leading_slash {
            Some(allow) => allow,
            None => false,
        }
    }
}

impl Default for Features {
    /// Every part takes its own default; the leading-slash choice is unset,
    /// so its accessor answers false.
    fn default() -> (r: Self)
        ensures
            r.dev.exclude@.len() == 0,
            r.launch.workshop@.len() == 0,
            r.launch.parameters@.len() == 0,
            r.build.optional_mod_folders is None,
            r.pbo_prefix_allow_leading_slash is None,
    {
        Features {
            config: default_options(),
            dev: Default::default(),
            launch: Default::default(),
            build: Default::default(),
            pbo_prefix_allow_leading_slash: None,
        }
    }
}

} // verus!
