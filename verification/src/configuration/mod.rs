//! The user's configuration and the values it is made of.

mod config;
mod frequency;
pub mod generators;
mod theme;
mod user_config;

pub use config::{Config, ConfigError};
pub use frequency::{
    day_components, digit_run, fault_message, is_token, is_unit, lemma_digit_run,
    lemma_digit_run_shape, lemma_fault_free_tokens, lemma_rejected_examples,
    lemma_seconds_formula, lemma_token_round_trip, on_calendar, task_components, token_fault,
    token_number, token_seconds, token_unit, unit_seconds, Frequency, ScheduleType, TokenFault,
};
pub use generators::Generators;
pub use theme::{same_colors, ThemeConfig, ThemeConfigs};
pub use user_config::UserConfig;
