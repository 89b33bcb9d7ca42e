//! The table of one manifest, built once and then only read.
use vstd::prelude::*;

use crate::extract::{crate_entries, extract_crate_names, resolution, CrateNames};
use crate::toml_parser::{parse_toml, toml_document};
use crate::text::text_eq;
use crate::{FoundCrate, ResolveError};

verus! {

/// The resolved manifest of one process: the directory it was found from,
/// its path, and its table of crate names.
pub struct Cache {
    pub manifest_dir: String,
    pub manifest_path: String,
    pub crate_names: CrateNames,
}

/// Whether `r` is what looking up `name` in `cache` gives: the table's
/// resolution, or `CrateNotFound` naming the crate and the manifest.
pub open spec fn lookup_result(
    cache: Cache,
    name: Seq<char>,
    r: Result<FoundCrate, ResolveError>,
) -> bool {
    match r {
        Ok(f) => resolution(cache.crate_names@, name) == Some(f@),
        Err(ResolveError::CrateNotFound { crate_name, path }) => {
            &&& resolution(cache.crate_names@, name) is None
            &&& crate_name@ == name
            &&& path@ == cache.manifest_path@
        },
        Err(_) => false,
    }
}

impl Cache {
    /// Decodes the manifest's text and builds its table of crate names.
    pub fn new(manifest_dir: String, manifest_path: String, manifest: &str, integration_test: bool) -> (r: Result<
        Cache,
        ResolveError,
    >)
        ensures
            match r {
                Ok(cache) => {
                    &&& toml_document(manifest@) is Some
                    &&& cache.crate_names@ == crate_entries(
                        toml_document(manifest@)->0,
                        integration_test,
                    )
                    &&& cache.manifest_dir@ == manifest_dir@
                    &&& cache.manifest_path@ == manifest_path@
                },
                Err(ResolveError::InvalidToml { .. }) => toml_document(manifest@) is None,
                Err(_) => false,
            },
    {
        let doc = parse_toml(manifest)?;
        let crate_names = extract_crate_names(&doc, integration_test);
        Ok(Cache { manifest_dir, manifest_path, crate_names })
    }

    /// Whether the cache was built from `manifest_dir`.
    pub fn is_for(&self, manifest_dir: &str) -> (r: bool)
        ensures
            r == (self.manifest_dir@ == manifest_dir@),
    {
        text_eq(self.manifest_dir.as_str(), manifest_dir)
    }

    /// Finds the name under which the crate published as `orig_name` is known.
    /// The manifest directory must be the one the cache was built from.
    pub fn crate_name(&self, manifest_dir: &str, orig_name: &str) -> (r: Result<FoundCrate, ResolveError>)
        requires
            self.manifest_dir@ == manifest_dir@,
        ensures
            lookup_result(*self, orig_name@, r),
    {
        match self.crate_names.get(orig_name) {
            Some(found) => Ok(found),
            None => Err(
                ResolveError::CrateNotFound {
                    crate_name: orig_name.to_owned(),
                    path: self.manifest_path.clone(),
                },
            ),
        }
    }
}

} // verus!
