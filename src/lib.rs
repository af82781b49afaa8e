//! Compiles a TOML color theme (a palette of named colors and a table of
//! highlight groups) into Neovim `nvim_set_hl` statements.

pub mod definition;
pub mod document;
pub mod error;
pub mod palette;
pub mod highlight;
pub mod theme;
