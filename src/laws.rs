//! What holds of every manifest and every lookup.
use vstd::prelude::*;

use crate::cache::{lookup_result, Cache};
use crate::extract::{
    all_declarations, crate_entries, declarations, own_entry, package_name, resolution,
    section_declarations, target_declarations, unit_declarations, Entry,
};
use crate::text::sanitized;
use crate::toml_parser::{field, table_lookup, Toml};
use crate::{FoundCrate, FoundCrateView, ResolveError};

verus! {

/// Whether every identifier that the entries resolve to is free of `-`.
pub open spec fn identifiers_clean(entries: Seq<Entry>) -> bool {
    forall|i: int, j: int|
        #![trigger entries[i].1->Name_0[j]]
        0 <= i < entries.len() && entries[i].1 is Name && 0 <= j < entries[i].1->Name_0.len()
            ==> entries[i].1->Name_0[j] != '-'
}

proof fn lemma_concat_clean(a: Seq<Entry>, b: Seq<Entry>)
    requires
        identifiers_clean(a),
        identifiers_clean(b),
    ensures
        identifiers_clean(a + b),
{
    assert forall|i: int, j: int|
        0 <= i < (a + b).len() && (a + b)[i].1 is Name && 0 <= j < (a + b)[i].1->Name_0.len()
            implies (a + b)[i].1->Name_0[j] != '-' by {
        if i < a.len() {
            assert((a + b)[i] == a[i]);
        } else {
            assert((a + b)[i] == b[i - a.len()]);
        }
    }
}

proof fn lemma_declarations_clean(decls: Seq<(String, Toml)>)
    ensures
        identifiers_clean(declarations(decls)),
{
}

proof fn lemma_unit_clean(t: Toml)
    ensures
        identifiers_clean(unit_declarations(t)),
{
    lemma_concat_clean(
        section_declarations(t, "dependencies"@),
        section_declarations(t, "dev-dependencies"@),
    );
}

proof fn lemma_targets_clean(targets: Seq<(String, Toml)>)
    ensures
        identifiers_clean(target_declarations(targets)),
    decreases targets.len(),
{
    if targets.len() > 0 {
        lemma_targets_clean(targets.drop_last());
        lemma_unit_clean(targets.last().1);
        lemma_concat_clean(target_declarations(targets.drop_last()), unit_declarations(targets.last().1));
    }
}

proof fn lemma_resolution_is_entry(entries: Seq<Entry>, name: Seq<char>)
    requires
        resolution(entries, name) is Some,
    ensures
        exists|i: int| 0 <= i < entries.len() && entries[i].1 == resolution(entries, name)->0,
    decreases entries.len(),
{
    if entries.last().0 != name {
        lemma_resolution_is_entry(entries.drop_last(), name);
        let i = choose|i: int|
            0 <= i < entries.drop_last().len() && entries.drop_last()[i].1 == resolution(
                entries.drop_last(),
                name,
            )->0;
        assert(entries[i] == entries.drop_last()[i]);
    } else {
        assert(entries[entries.len() - 1] == entries.last());
    }
}

/// Every identifier that a lookup returns is sanitized: it holds no `-`,
/// whether it comes from a plain, a development or a platform-specific
/// dependency table, or from the package's own name in an integration test.
pub proof fn lemma_identifiers_sanitized(doc: Toml, integration_test: bool, name: Seq<char>)
    ensures
        match resolution(crate_entries(doc, integration_test), name) {
            Some(FoundCrateView::Name(id)) => forall|j: int| 0 <= j < id.len() ==> id[j] != '-',
            _ => true,
        },
{
    let entries = crate_entries(doc, integration_test);
    lemma_unit_clean(doc);
    match field(doc, "target"@) {
        Some(Toml::Nested(targets)) => {
            lemma_targets_clean(targets@);
            lemma_concat_clean(unit_declarations(doc), target_declarations(targets@));
        },
        _ => {
            assert(all_declarations(doc) =~= unit_declarations(doc));
        },
    }
    match package_name(doc) {
        Some(n) => {
            assert(identifiers_clean(own_entry(doc, integration_test))) by {
                if integration_test {
                    assert(own_entry(doc, integration_test)[0].1 == FoundCrateView::Name(sanitized(n)));
                }
            }
        },
        None => {},
    }
    lemma_concat_clean(own_entry(doc, integration_test), all_declarations(doc));
    if resolution(entries, name) is Some {
        lemma_resolution_is_entry(entries, name);
        let i = choose|i: int| 0 <= i < entries.len() && entries[i].1 == resolution(entries, name)->0;
        match entries[i].1 {
            FoundCrateView::Name(id) => {
                assert forall|j: int| 0 <= j < id.len() implies id[j] != '-' by {
                    assert(entries[i].1->Name_0[j] != '-');
                }
            },
            _ => {},
        }
    }
}

/// Whether `t` is a table with the single key `key`, whose value is `value`.
pub open spec fn single_key_table(t: Toml, key: Seq<char>, value: Toml) -> bool {
    match t {
        Toml::Nested(entries) => entries@.len() == 1 && entries@[0].0@ == key && entries@[0].1
            == value,
        _ => false,
    }
}

/// Whether `t` is a table without keys.
pub open spec fn empty_table(t: Toml) -> bool {
    match t {
        Toml::Nested(entries) => entries@.len() == 0,
        _ => false,
    }
}

proof fn lemma_single_key_field(t: Toml, key: Seq<char>, value: Toml, other: Seq<char>)
    requires
        single_key_table(t, key, value),
    ensures
        field(t, key) == Some(value),
        other != key ==> field(t, other) is None,
{
    if let Toml::Nested(entries) = t {
        assert(table_lookup(entries@.drop_first(), other) is None);
    }
}

/// A manifest that holds nothing but an empty `dependencies` table knows no
/// crate: every lookup fails.
pub proof fn lemma_empty_dependencies(doc: Toml, deps: Toml, integration_test: bool, name: Seq<char>)
    requires
        single_key_table(doc, "dependencies"@, deps),
        empty_table(deps),
    ensures
        resolution(crate_entries(doc, integration_test), name) is None,
{
    reveal_strlit("dependencies");
    reveal_strlit("dev-dependencies");
    reveal_strlit("package");
    reveal_strlit("target");
    lemma_single_key_field(doc, "dependencies"@, deps, "package"@);
    lemma_single_key_field(doc, "dependencies"@, deps, "dev-dependencies"@);
    lemma_single_key_field(doc, "dependencies"@, deps, "target"@);
    assert(crate_entries(doc, integration_test) =~= Seq::empty());
}

/// The platform keys of a `target` table are never read: two `target`
/// tables with the same platform tables in the same order, whatever their
/// keys, give the same entries.
pub proof fn lemma_target_keys_unread(a: Seq<(String, Toml)>, b: Seq<(String, Toml)>)
    requires
        a.len() == b.len(),
        forall|i: int| 0 <= i < a.len() ==> a[i].1 == b[i].1,
    ensures
        target_declarations(a) == target_declarations(b),
    decreases a.len(),
{
    if a.len() > 0 {
        lemma_target_keys_unread(a.drop_last(), b.drop_last());
    }
}

/// A dependency declared only in the table of one platform, under whatever
/// platform key (a `cfg(...)` expression or a target triple), gives the same
/// entries as the same `dependencies` table at the top of the manifest.
pub proof fn lemma_platform_dependencies(
    doc: Toml,
    targets: Toml,
    platform: Seq<char>,
    unit: Toml,
    deps: Toml,
    integration_test: bool,
)
    requires
        single_key_table(doc, "target"@, targets),
        single_key_table(targets, platform, unit),
        single_key_table(unit, "dependencies"@, deps),
    ensures
        crate_entries(doc, integration_test) == section_declarations(unit, "dependencies"@),
{
    reveal_strlit("dependencies");
    reveal_strlit("dev-dependencies");
    reveal_strlit("package");
    reveal_strlit("target");
    assert("target"@.len() == 6 && "package"@.len() == 7 && "dependencies"@.len() == 12
        && "dev-dependencies"@.len() == 16);
    lemma_single_key_field(doc, "target"@, targets, "package"@);
    lemma_single_key_field(doc, "target"@, targets, "dependencies"@);
    lemma_single_key_field(doc, "target"@, targets, "dev-dependencies"@);
    lemma_single_key_field(unit, "dependencies"@, deps, "dev-dependencies"@);
    if let Toml::Nested(t) = targets {
        assert(target_declarations(t@.drop_last()) =~= Seq::empty());
        assert(t@.last().1 == unit);
        assert(target_declarations(t@) =~= unit_declarations(unit));
        assert(field(doc, "target"@) == Some(Toml::Nested(t)));
    }
    assert(package_name(doc) is None);
    assert(unit_declarations(doc) =~= Seq::empty());
    assert(unit_declarations(unit) =~= section_declarations(unit, "dependencies"@));
    assert(crate_entries(doc, integration_test) =~= section_declarations(unit, "dependencies"@));
}

/// Looking up one name twice in one cache gives equal results: the same
/// resolution, or the same `CrateNotFound` error.
pub proof fn lemma_lookup_repeatable(
    cache: Cache,
    name: Seq<char>,
    first: Result<FoundCrate, ResolveError>,
    second: Result<FoundCrate, ResolveError>,
)
    requires
        lookup_result(cache, name, first),
        lookup_result(cache, name, second),
    ensures
        match (first, second) {
            (Ok(a), Ok(b)) => a@ == b@,
            (
                Err(ResolveError::CrateNotFound { crate_name: n1, path: p1 }),
                Err(ResolveError::CrateNotFound { crate_name: n2, path: p2 }),
            ) => n1@ == n2@ && p1@ == p2@,
            _ => false,
        },
{
}

} // verus!
