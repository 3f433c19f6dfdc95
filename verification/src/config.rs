use vstd::prelude::*;

verus! {

/// Settings for text insertion.
#[derive(Debug)]
pub struct Insert {
    pub autopairs: bool,
    pub expand_tab: bool,
    pub space_expansion: Option<u8>,
}

/// The editor's settings.
#[derive(Debug)]
pub struct EditorConfig {
    pub insert: Insert,
    pub additional_quit_amount: u8,
}

/// The settings the editor uses when no configuration file can be read:
/// pairs are completed, tabs are expanded to two spaces, and a dirty document
/// needs three more presses of Ctrl-Q before the editor quits.
pub open spec fn default_config() -> EditorConfig {
    EditorConfig {
        insert: Insert { autopairs: true, expand_tab: true, space_expansion: Some(2u8) },
        additional_quit_amount: 3u8,
    }
}

impl EditorConfig {
    /// The built-in configuration.
    pub fn default() -> (res: Self)
        ensures
            res == default_config(),
    {
        EditorConfig {
            insert: Insert { autopairs: true, expand_tab: true, space_expansion: Some(2) },
            additional_quit_amount: 3,
        }
    }

    /// A configuration from its insertion settings and the number of extra
    /// Ctrl-Q presses that quitting a dirty document asks for.
    pub fn new(insert: Insert, quit_amount: u8) -> (res: Self)
        ensures
            res.insert == insert,
            res.additional_quit_amount == quit_amount,
    {
        EditorConfig { insert, additional_quit_amount: quit_amount }
    }
}

/// What became of the attempt to read the configuration file.
pub enum ConfigLoad {
    /// The file could not be read.
    Unreadable,
    /// The file was read but does not hold a configuration.
    Malformed,
    /// The file held this configuration.
    Loaded(EditorConfig),
}

impl ConfigLoad {
    /// The configuration that a load outcome leads to: the one loaded, or the
    /// built-in one.
    pub open spec fn resulting_config(self) -> EditorConfig {
        match self {
            ConfigLoad::Loaded(config) => config,
            _ => default_config(),
        }
    }

    /// The warning that a load outcome gives, if any.
    pub fn warning(&self) -> (res: Option<&'static str>)
        ensures
            (res is None) <==> (*self is Loaded),
            *self is Unreadable ==> res == Some("Failed to read the config file. Using default config."),
            *self is Malformed ==> res == Some("Failed to deserialize config. Using default config."),
    {
        match self {
            ConfigLoad::Unreadable => Some("Failed to read the config file. Using default config."),
            ConfigLoad::Malformed => Some("Failed to deserialize config. Using default config."),
            ConfigLoad::Loaded(_) => None,
        }
    }
}

/// Holds the configuration that every part of the editor reads.
pub struct ConfigManager {
    config: EditorConfig,
}

impl ConfigManager {
    /// The configuration held.
    pub closed spec fn config(&self) -> EditorConfig {
        self.config
    }

    /// The manager for a load outcome: it holds the loaded configuration, or
    /// the built-in one when the file could not be read or parsed.
    pub fn from_load(load: ConfigLoad) -> (res: Self)
        ensures
            res.config() == load.resulting_config(),
    {
        let config = match load {
            ConfigLoad::Loaded(config) => config,
            _ => EditorConfig::default(),
        };
        ConfigManager { config }
    }

    /// Read access to the configuration.
    pub fn get_config(&self) -> (res: &EditorConfig)
        ensures
            *res == self.config(),
    {
        &self.config
    }

    /// Write access to the configuration: what is written through the
    /// reference is what the manager holds afterwards.
    pub fn get_mut_config(&mut self) -> (res: &mut EditorConfig)
        ensures
            *res == old(self).config(),
            final(self).config() == *final(res),
    {
        &mut self.config
    }
}

} // verus!
