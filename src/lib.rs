//! Finds the name under which a crate is known to the package whose manifest
//! is being read, following renames and platform-specific dependency tables.
use vstd::prelude::*;

pub mod cache;
pub mod extract;
pub mod laws;
pub mod outside;
pub mod text;
pub mod toml_parser;

pub use cache::Cache;
pub use extract::{extract_crate_names, CrateNames};
pub use text::sanitize_crate_name;
pub use toml_parser::{parse_toml, Toml};

verus! {

/// The crate as found by the resolver.
#[derive(Debug, PartialEq, Eq, Clone)]
pub enum FoundCrate {
    /// The searched crate is the package itself.
    Itself,
    /// The searched crate is known under this name.
    Name(String),
}

/// A resolution as the contracts see it.
pub enum FoundCrateView {
    Itself,
    Name(Seq<char>),
}

impl View for FoundCrate {
    type V = FoundCrateView;

    open spec fn view(&self) -> FoundCrateView {
        match self {
            FoundCrate::Itself => FoundCrateView::Itself,
            FoundCrate::Name(n) => FoundCrateView::Name(n@),
        }
    }
}

/// Why a crate could not be resolved.
#[derive(Debug)]
pub enum ResolveError {
    /// No manifest in the given directory.
    NotFound(String),
    /// The manifest directory is not known to the process.
    CargoManifestDirNotSet,
    /// The manifest could not be read.
    CouldNotRead { path: String, source: std::io::Error },
    /// The manifest is not a valid TOML document.
    InvalidToml { source: toml::de::Error },
    /// The crate is neither the package itself nor one of its dependencies.
    CrateNotFound { crate_name: String, path: String },
}

} // verus!
