//! From a decoded manifest to the table of crate names.
use vstd::prelude::*;

use crate::text::{sanitize_crate_name, sanitized};
use crate::toml_parser::{field, get, Toml};
use crate::{FoundCrate, FoundCrateView};

verus! {

/// A name under which a crate is looked up, and what it resolves to.
pub type Entry = (Seq<char>, FoundCrateView);

/// The package's own name: the string `name` of the top-level `package` table.
pub open spec fn package_name(doc: Toml) -> Option<Seq<char>> {
    match field(doc, "package"@) {
        Some(p) => match field(p, "name"@) {
            Some(Toml::Value(n)) => Some(n@),
            _ => None,
        },
        None => None,
    }
}

/// The published name of a dependency declared under `key`: the string
/// `package` of its table where there is one, else the key itself.
pub open spec fn canonical_name(key: Seq<char>, value: Toml) -> Seq<char> {
    match field(value, "package"@) {
        Some(Toml::Value(p)) => p@,
        _ => key,
    }
}

/// One entry per declaration of a dependency table, in order.
pub open spec fn declarations(decls: Seq<(String, Toml)>) -> Seq<Entry> {
    decls.map_values(
        |d: (String, Toml)| (canonical_name(d.0@, d.1), FoundCrateView::Name(sanitized(d.0@))),
    )
}

/// The entries of the dependency table under `key` of `t`, if it is a table.
pub open spec fn section_declarations(t: Toml, key: Seq<char>) -> Seq<Entry> {
    match field(t, key) {
        Some(Toml::Nested(decls)) => declarations(decls@),
        _ => Seq::empty(),
    }
}

/// The entries of the `dependencies` and then the `dev-dependencies` table of `t`.
pub open spec fn unit_declarations(t: Toml) -> Seq<Entry> {
    section_declarations(t, "dependencies"@) + section_declarations(t, "dev-dependencies"@)
}

/// The entries of every platform table of a `target` table, in order; the
/// platform keys are never read.
pub open spec fn target_declarations(targets: Seq<(String, Toml)>) -> Seq<Entry>
    decreases targets.len(),
{
    if targets.len() == 0 {
        Seq::empty()
    } else {
        target_declarations(targets.drop_last()) + unit_declarations(targets.last().1)
    }
}

/// The entries of every dependency table of the manifest, the platform ones last.
pub open spec fn all_declarations(doc: Toml) -> Seq<Entry> {
    unit_declarations(doc) + match field(doc, "target"@) {
        Some(Toml::Nested(targets)) => target_declarations(targets@),
        _ => Seq::empty(),
    }
}

/// What the package's own name resolves to: itself, or, in an integration
/// test, its sanitized name.
pub open spec fn self_resolution(name: Seq<char>, integration_test: bool) -> FoundCrateView {
    if integration_test {
        FoundCrateView::Name(sanitized(name))
    } else {
        FoundCrateView::Itself
    }
}

/// The package's own entry, where the manifest names the package.
pub open spec fn own_entry(doc: Toml, integration_test: bool) -> Seq<Entry> {
    match package_name(doc) {
        Some(n) => seq![(n, self_resolution(n, integration_test))],
        None => Seq::empty(),
    }
}

/// The whole table: the package's own entry first, then the dependencies.
pub open spec fn crate_entries(doc: Toml, integration_test: bool) -> Seq<Entry> {
    own_entry(doc, integration_test) + all_declarations(doc)
}

/// What `name` resolves to in a table: the last entry for it wins.
pub open spec fn resolution(entries: Seq<Entry>, name: Seq<char>) -> Option<FoundCrateView>
    decreases entries.len(),
{
    if entries.len() == 0 {
        None
    } else if entries.last().0 == name {
        Some(entries.last().1)
    } else {
        resolution(entries.drop_last(), name)
    }
}

/// The table of crate names of a manifest.
pub struct CrateNames {
    pub entries: Vec<(String, FoundCrate)>,
}

impl View for CrateNames {
    type V = Seq<Entry>;

    open spec fn view(&self) -> Seq<Entry> {
        entries_view(self.entries@)
    }
}

/// The entries of a table, as names and resolutions.
pub open spec fn entries_view(entries: Seq<(String, FoundCrate)>) -> Seq<Entry> {
    entries.map_values(|e: (String, FoundCrate)| (e.0@, e.1@))
}

fn push_entry(out: &mut Vec<(String, FoundCrate)>, name: String, found: FoundCrate)
    ensures
        entries_view(final(out)@) == entries_view(old(out)@).push((name@, found@)),
{
    let ghost name_v = name@;
    let ghost found_v = found@;
    out.push((name, found));
    assert(entries_view(out@) =~= entries_view(old(out)@).push((name_v, found_v)));
}

/// Appends one entry per declaration of a dependency table.
fn push_declarations(decls: &Vec<(String, Toml)>, out: &mut Vec<(String, FoundCrate)>)
    ensures
        entries_view(final(out)@) == entries_view(old(out)@) + declarations(decls@),
{
    let n = decls.len();
    let mut i: usize = 0;
    while i < n
        invariant
            n == decls@.len(),
            i <= n,
            entries_view(out@) == entries_view(old(out)@) + declarations(
                decls@.subrange(0, i as int),
            ),
        decreases n - i,
    {
        let key = &decls[i].0;
        let value = &decls[i].1;
        let pkg_name = match get(value, "package") {
            Some(Toml::Value(p)) => p.clone(),
            _ => key.clone(),
        };
        let found = FoundCrate::Name(sanitize_crate_name(key.as_str()));
        push_entry(out, pkg_name, found);
        assert(decls@.subrange(0, i + 1) =~= decls@.subrange(0, i as int).push(decls@[i as int]));
        assert(declarations(decls@.subrange(0, i + 1)) =~= declarations(
            decls@.subrange(0, i as int),
        ).push(declarations(decls@)[i as int]));
        i = i + 1;
    }
    assert(decls@.subrange(0, n as int) =~= decls@);
}

/// Appends the entries of the `dependencies` and `dev-dependencies` tables of `table`.
fn dep_tables(table: &Toml, out: &mut Vec<(String, FoundCrate)>)
    ensures
        entries_view(final(out)@) == entries_view(old(out)@) + unit_declarations(*table),
{
    let ghost start = entries_view(out@);
    match get(table, "dependencies") {
        Some(Toml::Nested(decls)) => push_declarations(decls, out),
        _ => {},
    }
    assert(entries_view(out@) =~= start + section_declarations(*table, "dependencies"@));
    let ghost mid = entries_view(out@);
    match get(table, "dev-dependencies") {
        Some(Toml::Nested(decls)) => push_declarations(decls, out),
        _ => {},
    }
    assert(entries_view(out@) =~= mid + section_declarations(*table, "dev-dependencies"@));
    assert(entries_view(out@) =~= start + unit_declarations(*table));
}

/// Appends the entries of the dependency tables of every platform under `target`.
fn target_dep_tables(doc: &Toml, out: &mut Vec<(String, FoundCrate)>)
    ensures
        entries_view(final(out)@) == entries_view(old(out)@) + match field(*doc, "target"@) {
            Some(Toml::Nested(targets)) => target_declarations(targets@),
            _ => Seq::empty(),
        },
{
    match get(doc, "target") {
        Some(Toml::Nested(targets)) => {
            let n = targets.len();
            let mut i: usize = 0;
            assert(entries_view(out@) =~= entries_view(old(out)@) + target_declarations(
                targets@.subrange(0, 0),
            ));
            while i < n
                invariant
                    n == targets@.len(),
                    i <= n,
                    entries_view(out@) == entries_view(old(out)@) + target_declarations(
                        targets@.subrange(0, i as int),
                    ),
                decreases n - i,
            {
                dep_tables(&targets[i].1, out);
                assert(targets@.subrange(0, i + 1).drop_last() =~= targets@.subrange(0, i as int));
                assert(entries_view(out@) =~= entries_view(old(out)@) + target_declarations(
                    targets@.subrange(0, i + 1),
                ));
                i = i + 1;
            }
            assert(targets@.subrange(0, n as int) =~= targets@);
        },
        _ => {
            assert(entries_view(out@) =~= entries_view(old(out)@) + Seq::empty());
        },
    }
}

/// The package's own name, where the manifest gives one.
fn extract_package_name(doc: &Toml) -> (r: Option<&String>)
    ensures
        match r {
            Some(n) => package_name(*doc) == Some(n@),
            None => package_name(*doc) is None,
        },
{
    match get(doc, "package") {
        Some(p) => match get(p, "name") {
            Some(Toml::Value(n)) => Some(n),
            _ => None,
        },
        None => None,
    }
}

/// Builds the table of crate names of a manifest: the package itself, then
/// every crate of its dependency tables, platform-specific ones included,
/// under its published name.
pub fn extract_crate_names(doc: &Toml, integration_test: bool) -> (r: CrateNames)
    ensures
        r@ == crate_entries(*doc, integration_test),
{
    let mut out: Vec<(String, FoundCrate)> = Vec::new();
    match extract_package_name(doc) {
        Some(name) => {
            let found = if integration_test {
                FoundCrate::Name(sanitize_crate_name(name.as_str()))
            } else {
                FoundCrate::Itself
            };
            push_entry(&mut out, name.clone(), found);
        },
        None => {},
    }
    dep_tables(doc, &mut out);
    target_dep_tables(doc, &mut out);
    assert(entries_view(out@) =~= crate_entries(*doc, integration_test));
    CrateNames { entries: out }
}

fn copy_found(f: &FoundCrate) -> (r: FoundCrate)
    ensures
        r@ == f@,
{
    match f {
        FoundCrate::Itself => FoundCrate::Itself,
        FoundCrate::Name(n) => FoundCrate::Name(n.clone()),
    }
}

impl CrateNames {
    /// What `name` resolves to, if the manifest knows it.
    pub fn get(&self, name: &str) -> (r: Option<FoundCrate>)
        ensures
            match r {
                Some(f) => resolution(self@, name@) == Some(f@),
                None => resolution(self@, name@) is None,
            },
    {
        let mut i: usize = self.entries.len();
        assert(self@.subrange(0, i as int) =~= self@);
        while i > 0
            invariant
                i <= self.entries@.len(),
                resolution(self@, name@) == resolution(self@.subrange(0, i as int), name@),
            decreases i,
        {
            assert(self@.subrange(0, i as int).drop_last() =~= self@.subrange(0, i - 1));
            if crate::text::text_eq(self.entries[i - 1].0.as_str(), name) {
                return Some(copy_found(&self.entries[i - 1].1));
            }
            i = i - 1;
        }
        None
    }
}

} // verus!
