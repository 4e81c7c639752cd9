//! The configuration the patch engine reads: one scale factor per resource
//! category, a multiplier applied to all of them, and two switches.

use vstd::prelude::*;
use crate::scaling::{at_least_one, clamp_scale, saturate, saturating_product};

verus! {

/// A resource category whose heap has a scale factor of its own.
#[derive(Clone, Copy, Debug, PartialEq, Eq, Structural)]
pub enum Category {
    Debug,
    Facegen,
    FileData,
    Global,
    Graphics,
    Gui,
    Havok,
    Menu,
    Morpheme,
    Network,
    Player,
    Regulation,
    SceneGraph,
    Sfx,
    Sound,
    StringData,
    System,
    Temp,
    Temp2,
}

/// The scale factor of each resource category.
#[derive(Clone, Copy, Debug, PartialEq, Eq, Structural)]
pub struct HeapSizeConfig {
    pub debug: u32,
    pub facegen: u32,
    pub file_data: u32,
    pub global: u32,
    pub graphics: u32,
    pub gui: u32,
    pub havok: u32,
    pub menu: u32,
    pub morpheme: u32,
    pub network: u32,
    pub player: u32,
    pub regulation: u32,
    pub scene_graph: u32,
    pub sfx: u32,
    pub sound: u32,
    pub string_data: u32,
    pub system: u32,
    pub temp: u32,
    pub temp2: u32,
}

/// Everything the user can configure.
#[derive(Clone, Copy, Debug, PartialEq, Eq, Structural)]
pub struct Config {
    pub patch_character_limit: bool,
    pub patch_soundbank_limit: bool,
    pub heap_size_multiplier: u32,
    pub heap_sizes: HeapSizeConfig,
}

/// Why no configuration could be loaded.
#[derive(Clone, Copy, Debug, PartialEq, Eq, Structural)]
pub enum ConfigError {
    FileNotFound,
    IoError,
    InvalidToml,
}

impl HeapSizeConfig {
    /// The scale factor of `category`.
    pub open spec fn factor(self, category: Category) -> u32 {
        match category {
            Category::Debug => self.debug,
            Category::Facegen => self.facegen,
            Category::FileData => self.file_data,
            Category::Global => self.global,
            Category::Graphics => self.graphics,
            Category::Gui => self.gui,
            Category::Havok => self.havok,
            Category::Menu => self.menu,
            Category::Morpheme => self.morpheme,
            Category::Network => self.network,
            Category::Player => self.player,
            Category::Regulation => self.regulation,
            Category::SceneGraph => self.scene_graph,
            Category::Sfx => self.sfx,
            Category::Sound => self.sound,
            Category::StringData => self.string_data,
            Category::System => self.system,
            Category::Temp => self.temp,
            Category::Temp2 => self.temp2,
        }
    }

    /// The factors whose value for each category is `f` of that category.
    pub open spec fn from_factors(f: spec_fn(Category) -> u32) -> HeapSizeConfig {
        HeapSizeConfig {
            debug: f(Category::Debug),
            facegen: f(Category::Facegen),
            file_data: f(Category::FileData),
            global: f(Category::Global),
            graphics: f(Category::Graphics),
            gui: f(Category::Gui),
            havok: f(Category::Havok),
            menu: f(Category::Menu),
            morpheme: f(Category::Morpheme),
            network: f(Category::Network),
            player: f(Category::Player),
            regulation: f(Category::Regulation),
            scene_graph: f(Category::SceneGraph),
            sfx: f(Category::Sfx),
            sound: f(Category::Sound),
            string_data: f(Category::StringData),
            system: f(Category::System),
            temp: f(Category::Temp),
            temp2: f(Category::Temp2),
        }
    }

    /// The factors used when the user supplies none.
    pub open spec fn standard() -> HeapSizeConfig {
        HeapSizeConfig {
            debug: 1,
            facegen: 1,
            file_data: 2,
            global: 1,
            graphics: 1,
            gui: 1,
            havok: 4,
            menu: 1,
            morpheme: 4,
            network: 1,
            player: 1,
            regulation: 2,
            scene_graph: 1,
            sfx: 4,
            sound: 3,
            string_data: 2,
            system: 2,
            temp: 1,
            temp2: 1,
        }
    }

    /// The scale factor of `category`.
    pub fn scale(&self, category: Category) -> (s: u32)
        ensures
            s == self.factor(category),
    {
        match category {
            Category::Debug => self.debug,
            Category::Facegen => self.facegen,
            Category::FileData => self.file_data,
            Category::Global => self.global,
            Category::Graphics => self.graphics,
            Category::Gui => self.gui,
            Category::Havok => self.havok,
            Category::Menu => self.menu,
            Category::Morpheme => self.morpheme,
            Category::Network => self.network,
            Category::Player => self.player,
            Category::Regulation => self.regulation,
            Category::SceneGraph => self.scene_graph,
            Category::Sfx => self.sfx,
            Category::Sound => self.sound,
            Category::StringData => self.string_data,
            Category::System => self.system,
            Category::Temp => self.temp,
            Category::Temp2 => self.temp2,
        }
    }
}

impl Default for HeapSizeConfig {
    fn default() -> (sizes: HeapSizeConfig)
        ensures
            sizes == HeapSizeConfig::standard(),
    {
        HeapSizeConfig {
            debug: 1,
            facegen: 1,
            file_data: 2,
            global: 1,
            graphics: 1,
            gui: 1,
            havok: 4,
            menu: 1,
            morpheme: 4,
            network: 1,
            player: 1,
            regulation: 2,
            scene_graph: 1,
            sfx: 4,
            sound: 3,
            string_data: 2,
            system: 2,
            temp: 1,
            temp2: 1,
        }
    }
}

impl Default for Config {
    fn default() -> (config: Config)
        ensures
            config == Config::standard(),
    {
        Config {
            patch_character_limit: true,
            patch_soundbank_limit: true,
            heap_size_multiplier: 2,
            heap_sizes: HeapSizeConfig::default(),
        }
    }
}

/// One factor after normalisation: clamped to at least one, multiplied by
/// the clamped multiplier, saturating.
#[verifier::opaque]
pub open spec fn normal_factor(factor: u32, multiplier: u32) -> u32 {
    saturate(at_least_one(factor) * at_least_one(multiplier))
}

/// What loading the configuration file came to: `None` when the directory
/// that should hold it could not be determined, otherwise the parsed file or
/// the reason there is none.
pub type Loaded = Option<Result<Config, ConfigError>>;

impl Config {
    /// The configuration used when the user supplies none.
    pub open spec fn standard() -> Config {
        Config {
            patch_character_limit: true,
            patch_soundbank_limit: true,
            heap_size_multiplier: 2,
            heap_sizes: HeapSizeConfig::standard(),
        }
    }

    /// This configuration with the multiplier folded into every factor: each
    /// factor becomes `normal_factor` of itself, the multiplier becomes one,
    /// and the switches stay.
    pub open spec fn normalized(self) -> Config {
        Config {
            patch_character_limit: self.patch_character_limit,
            patch_soundbank_limit: self.patch_soundbank_limit,
            heap_size_multiplier: 1,
            heap_sizes: HeapSizeConfig::from_factors(
                |c: Category| normal_factor(self.heap_sizes.factor(c), self.heap_size_multiplier),
            ),
        }
    }

    /// Whether every factor and the multiplier are at least one, and the
    /// multiplier is exactly one: the form the patch engine is handed.
    pub open spec fn is_normal(self) -> bool {
        &&& self.heap_size_multiplier == 1
        &&& forall|c: Category| self.heap_sizes.factor(c) >= 1
    }

    /// The configuration that a load attempt resolves to, before it is
    /// normalised again: the loaded one, normalised, or else the standard one.
    pub open spec fn resolved(loaded: Loaded) -> Config {
        match loaded {
            Some(Ok(config)) => config.normalized(),
            _ => Config::standard(),
        }
    }

    /// Whether a load attempt calls for the standard configuration to be
    /// written out: the file is missing or cannot be parsed. A file that
    /// exists but cannot be read is left alone.
    pub open spec fn creates_default(loaded: Loaded) -> bool {
        loaded == Some(Err::<Config, ConfigError>(ConfigError::FileNotFound)) || loaded == Some(
            Err::<Config, ConfigError>(ConfigError::InvalidToml),
        )
    }

    /// Folds the multiplier into every factor.
    pub fn normalize(self) -> (config: Config)
        ensures
            config == self.normalized(),
            config.is_normal(),
    {
        let m = clamp_scale(self.heap_size_multiplier);
        let sizes = self.heap_sizes;
        let config = Config {
            patch_character_limit: self.patch_character_limit,
            patch_soundbank_limit: self.patch_soundbank_limit,
            heap_size_multiplier: 1,
            heap_sizes: HeapSizeConfig {
                debug: saturating_product(clamp_scale(sizes.debug), m),
                facegen: saturating_product(clamp_scale(sizes.facegen), m),
                file_data: saturating_product(clamp_scale(sizes.file_data), m),
                global: saturating_product(clamp_scale(sizes.global), m),
                graphics: saturating_product(clamp_scale(sizes.graphics), m),
                gui: saturating_product(clamp_scale(sizes.gui), m),
                havok: saturating_product(clamp_scale(sizes.havok), m),
                menu: saturating_product(clamp_scale(sizes.menu), m),
                morpheme: saturating_product(clamp_scale(sizes.morpheme), m),
                network: saturating_product(clamp_scale(sizes.network), m),
                player: saturating_product(clamp_scale(sizes.player), m),
                regulation: saturating_product(clamp_scale(sizes.regulation), m),
                scene_graph: saturating_product(clamp_scale(sizes.scene_graph), m),
                sfx: saturating_product(clamp_scale(sizes.sfx), m),
                sound: saturating_product(clamp_scale(sizes.sound), m),
                string_data: saturating_product(clamp_scale(sizes.string_data), m),
                system: saturating_product(clamp_scale(sizes.system), m),
                temp: saturating_product(clamp_scale(sizes.temp), m),
                temp2: saturating_product(clamp_scale(sizes.temp2), m),
            },
        };
        proof {
            reveal(normal_factor);
            lemma_normalized_is_normal(self);
        }
        config
    }

    /// The outcome of loading the file, with a loaded configuration
    /// normalised and an error passed on.
    pub fn read(raw: Result<Config, ConfigError>) -> (outcome: Result<Config, ConfigError>)
        ensures
            outcome == match raw {
                Ok(config) => Ok::<Config, ConfigError>(config.normalized()),
                Err(e) => Err::<Config, ConfigError>(e),
            },
    {
        match raw {
            Ok(config) => Ok(config.normalize()),
            Err(e) => Err(e),
        }
    }

    /// Settles on a configuration after a load attempt, and says whether the
    /// standard configuration is to be written where the file should be.
    pub fn read_or_create(loaded: Loaded) -> (settled: (Config, bool))
        ensures
            settled.0 == Config::resolved(loaded),
            settled.1 == Config::creates_default(loaded),
    {
        match loaded {
            None => (Config::default(), false),
            Some(raw) => match Config::read(raw) {
                Ok(config) => (config, false),
                Err(ConfigError::FileNotFound) => (Config::default(), true),
                Err(ConfigError::InvalidToml) => (Config::default(), true),
                Err(ConfigError::IoError) => (Config::default(), false),
            },
        }
    }

    /// As `read_or_create`, with the configuration normalised, so that what
    /// the patch engine gets is in normal form whatever was loaded.
    pub fn read_or_create_default(loaded: Loaded) -> (settled: (Config, bool))
        ensures
            settled.0 == Config::resolved(loaded).normalized(),
            settled.0.is_normal(),
            settled.1 == Config::creates_default(loaded),
    {
        let (config, create) = Config::read_or_create(loaded);
        (config.normalize(), create)
    }
}

/// A normalised factor is at least one, and a factor of at least one is
/// left as it is by a multiplier of one.
pub proof fn lemma_normal_factor(factor: u32, multiplier: u32)
    ensures
        normal_factor(factor, multiplier) >= 1,
        factor >= 1 && multiplier == 1 ==> normal_factor(factor, multiplier) == factor,
{
    reveal(normal_factor);
    let f = at_least_one(factor) as int;
    let m = at_least_one(multiplier) as int;
    assert(f * m >= 1 && (m == 1 ==> f * m == f)) by (nonlinear_arith)
        requires
            f >= 1,
            m >= 1,
    ;
}

/// A normalised configuration is in normal form, and each of its factors is
/// the normalised factor of the same category.
pub proof fn lemma_normalized_is_normal(config: Config)
    ensures
        config.normalized().is_normal(),
        forall|c: Category| #[trigger]
            config.normalized().heap_sizes.factor(c) == normal_factor(
                config.heap_sizes.factor(c),
                config.heap_size_multiplier,
            ),
{
    let sizes = config.normalized().heap_sizes;
    assert forall|c: Category| #[trigger]
        sizes.factor(c) == normal_factor(
            config.heap_sizes.factor(c),
            config.heap_size_multiplier,
        ) && sizes.factor(c) >= 1 by {
        lemma_normal_factor(config.heap_sizes.factor(c), config.heap_size_multiplier);
    }
}

/// Normalising twice is normalising once: a configuration in normal form is
/// left as it is.
pub proof fn lemma_normalize_idempotent(config: Config)
    ensures
        config.normalized().normalized() == config.normalized(),
        config.is_normal() ==> config.normalized() == config,
{
    lemma_normalized_is_normal(config);
    lemma_normal_form_fixed(config.normalized());
    if config.is_normal() {
        lemma_normal_form_fixed(config);
    }
}

proof fn lemma_normal_form_fixed(config: Config)
    requires
        config.is_normal(),
    ensures
        config.normalized() == config,
{
    assert forall|c: Category|
        normal_factor(#[trigger] config.heap_sizes.factor(c), config.heap_size_multiplier)
            == config.heap_sizes.factor(c) by {
        lemma_normal_factor(config.heap_sizes.factor(c), config.heap_size_multiplier);
    }
    assert(config.heap_sizes.factor(Category::Debug) >= 1);
}

} // verus!
