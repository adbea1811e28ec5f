//! The linter's configuration.

use vstd::prelude::*;

verus! {

/// Settings of the line-length rule.
#[derive(Debug, Clone, Copy, PartialEq, Eq, Structural)]
pub struct Md013Config {
    /// The greatest number of characters that a line may have.
    pub line_length: usize,
    /// Whether the rule applies inside fenced code blocks.
    pub code_blocks: bool,
    /// Whether the rule applies to table rows.
    pub tables: bool,
}

/// The settings of the rule where a configuration only switches it on.
pub open spec fn default_md013() -> Md013Config {
    Md013Config { line_length: 80, code_blocks: true, tables: true }
}

impl Default for Md013Config {
    fn default() -> (config: Md013Config)
        ensures
            config == default_md013(),
    {
        Md013Config { line_length: 80, code_blocks: true, tables: true }
    }
}

/// What a configuration says of the line-length rule: on or off, or its
/// settings.
#[derive(Debug, Clone, Copy, PartialEq, Eq, Structural)]
pub enum Md013ConfigWrapper {
    Enabled(bool),
    Config(Md013Config),
}

/// A linter configuration.
#[derive(Debug, Clone, Copy, PartialEq, Eq, Structural)]
pub struct MarkdownLintConfig {
    /// Whether a rule that the configuration does not mention is on.
    pub default: bool,
    /// The line-length rule, if the configuration mentions it.
    pub md013: Option<Md013ConfigWrapper>,
    /// The first-line-heading rule, if the configuration mentions it.
    pub md041: Option<bool>,
}

/// The value of `default` in a configuration that does not give it.
pub fn default_true() -> (r: bool)
    ensures
        r,
{
    true
}

/// The settings under which the line-length rule runs, or `None` where it is
/// off. Switched on without settings, and not mentioned while rules are on
/// by default, it runs with the default settings.
pub open spec fn md013_setting(config: MarkdownLintConfig) -> Option<Md013Config> {
    match config.md013 {
        Some(Md013ConfigWrapper::Enabled(false)) => None,
        Some(Md013ConfigWrapper::Enabled(true)) => Some(default_md013()),
        Some(Md013ConfigWrapper::Config(settings)) => Some(settings),
        None => if config.default {
            Some(default_md013())
        } else {
            None
        },
    }
}

impl MarkdownLintConfig {
    /// Computes [`md013_setting`].
    pub fn get_md013_config(&self) -> (r: Option<Md013Config>)
        ensures
            r == md013_setting(*self),
    {
        match self.md013 {
            Some(Md013ConfigWrapper::Enabled(false)) => None,
            Some(Md013ConfigWrapper::Enabled(true)) => Some(Md013Config::default()),
            Some(Md013ConfigWrapper::Config(settings)) => Some(settings),
            None => {
                if self.default {
                    Some(Md013Config::default())
                } else {
                    None
                }
            },
        }
    }
}

} // verus!
