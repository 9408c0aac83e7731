//! Name resolution: default package and library names for each component,
//! and the links from each component to the packages of the others.

use crate::config::{opt_view, views_of_components, Component, ComponentView, ConfigView};
use crate::packages::{distinct_keys, lemma_map_of_keys, map_of, PackageMap};
use crate::text::concat2;
use vstd::prelude::*;

verus! {

/// The package of a component that names none: `uniffi.` and its namespace.
pub open spec fn default_package_name(namespace: Seq<char>) -> Seq<char> {
    "uniffi."@ + namespace
}

/// The native library of a component that names none, where the run gives
/// no name either: `uniffi_` and its namespace.
pub open spec fn default_cdylib_name(namespace: Seq<char>) -> Seq<char> {
    "uniffi_"@ + namespace
}

/// The package that a component's code is generated into.
pub open spec fn package_of(c: ComponentView) -> Seq<char> {
    match c.config.package_name {
        Some(name) => name,
        None => default_package_name(c.namespace),
    }
}

/// The native library that a component's code loads, where the run's
/// settings offer `cdylib`.
pub open spec fn cdylib_of(c: ComponentView, cdylib: Option<Seq<char>>) -> Seq<char> {
    match c.config.cdylib_name {
        Some(name) => name,
        None => match cdylib {
            Some(name) => name,
            None => default_cdylib_name(c.namespace),
        },
    }
}

/// The component with both names filled in; names already set stay.
pub open spec fn with_defaults(c: ComponentView, cdylib: Option<Seq<char>>) -> ComponentView {
    ComponentView {
        config: ConfigView {
            package_name: Some(package_of(c)),
            cdylib_name: Some(cdylib_of(c, cdylib)),
            external_packages: c.config.external_packages,
        },
        ..c
    }
}

/// Package by crate name over all components. Of two components with one
/// crate name, the later one counts.
pub open spec fn package_table(components: Seq<ComponentView>) -> Map<Seq<char>, Seq<char>>
    decreases components.len(),
{
    if components.len() == 0 {
        Map::empty()
    } else {
        package_table(components.drop_last()).insert(
            components.last().crate_name,
            package_of(components.last()),
        )
    }
}

/// The external packages of a component after linking against `table`:
/// every entry of the table but the component's own, under the entries that
/// the component already had.
pub open spec fn linked_packages(
    own_crate: Seq<char>,
    packages: Map<Seq<char>, Seq<char>>,
    table: Map<Seq<char>, Seq<char>>,
) -> Map<Seq<char>, Seq<char>> {
    table.remove(own_crate).union_prefer_right(packages)
}

/// One component after resolution against the package table of the build.
pub open spec fn resolved_component(
    c: ComponentView,
    cdylib: Option<Seq<char>>,
    table: Map<Seq<char>, Seq<char>>,
) -> ComponentView {
    ComponentView {
        config: ConfigView {
            package_name: Some(package_of(c)),
            cdylib_name: Some(cdylib_of(c, cdylib)),
            external_packages: linked_packages(c.crate_name, c.config.external_packages, table),
        },
        ..c
    }
}

/// The components after resolution.
pub open spec fn resolved(components: Seq<ComponentView>, cdylib: Option<Seq<char>>) -> Seq<
    ComponentView,
> {
    Seq::new(
        components.len(),
        |i: int| resolved_component(components[i], cdylib, package_table(components)),
    )
}

/// Fills in the names that `c` leaves unset.
fn fill_defaults(c: &mut Component, cdylib: &Option<String>)
    ensures
        final(c)@ == with_defaults(old(c)@, opt_view(*cdylib)),
{
    if c.config.package_name.is_none() {
        c.config.package_name = Some(concat2("uniffi.", c.ci.namespace()));
    }
    if c.config.cdylib_name.is_none() {
        let name = match cdylib {
            Some(name) => name.clone(),
            None => concat2("uniffi_", c.ci.namespace()),
        };
        c.config.cdylib_name = Some(name);
    }
}

/// The package that the code of `c` is generated into: the one it names,
/// else `uniffi.` and its namespace.
pub fn package_name(c: &Component) -> (package: String)
    ensures
        package@ == package_of(c@),
{
    match &c.config.package_name {
        Some(name) => name.clone(),
        None => concat2("uniffi.", c.ci.namespace()),
    }
}

/// Builds the package table of the components.
fn build_table(components: &Vec<Component>) -> (table: PackageMap)
    ensures
        table@ == package_table(views_of_components(components@)),
{
    let mut table = PackageMap::new();
    let mut i: usize = 0;
    let ghost views = views_of_components(components@);
    while i < components.len()
        invariant
            i <= components@.len(),
            views == views_of_components(components@),
            table@ == package_table(views.subrange(0, i as int)),
        decreases components@.len() - i,
    {
        let c = &components[i];
        table.insert(c.ci.crate_name().to_owned(), package_name(c));
        proof {
            assert(views.subrange(0, i + 1).drop_last() =~= views.subrange(0, i as int));
            assert(views.subrange(0, i + 1).last() == c@);
        }
        i = i + 1;
    }
    proof {
        assert(views.subrange(0, i as int) =~= views);
    }
    table
}

/// Adds to `c` each entry of the table that is not its own and that it does
/// not have yet.
fn link(c: &mut Component, table: &PackageMap)
    ensures
        final(c)@ == (ComponentView {
            config: ConfigView {
                external_packages: linked_packages(
                    old(c)@.crate_name,
                    old(c)@.config.external_packages,
                    table@,
                ),
                ..old(c)@.config
            },
            ..old(c)@
        }),
{
    let pairs = table.entries();
    let own = c.ci.crate_name().to_owned();
    let ghost before = c.config.external_packages@;
    let mut j: usize = 0;
    assert(pairs@.subrange(0, 0) =~= Seq::empty());
    assert(c.config.external_packages@ =~= linked_packages(own@, before, map_of(pairs@.subrange(0, 0))));
    while j < pairs.len()
        invariant
            j <= pairs@.len(),
            distinct_keys(pairs@),
            own@ == old(c)@.crate_name,
            before == old(c)@.config.external_packages,
            c.ci == old(c).ci,
            c.config.package_name == old(c).config.package_name,
            c.config.cdylib_name == old(c).config.cdylib_name,
            c.config.external_packages@ == linked_packages(
                own@,
                before,
                map_of(pairs@.subrange(0, j as int)),
            ),
        decreases pairs@.len() - j,
    {
        let key = &pairs[j].0;
        let ghost seen = map_of(pairs@.subrange(0, j as int));
        proof {
            assert(pairs@.subrange(0, j + 1).drop_last() =~= pairs@.subrange(0, j as int));
            assert(pairs@.subrange(0, j + 1).last() == pairs@[j as int]);
            assert(!seen.contains_key(key@)) by {
                lemma_map_of_keys(pairs@.subrange(0, j as int), key@);
            }
        }
        if *key != own && !c.config.external_packages.contains_key(key.as_str()) {
            c.config.external_packages.insert(key.clone(), pairs[j].1.clone());
        }
        proof {
            assert(c.config.external_packages@ =~= linked_packages(
                own@,
                before,
                seen.insert(key@, pairs@[j as int].1@),
            ));
        }
        j = j + 1;
    }
    proof {
        assert(pairs@.subrange(0, j as int) =~= pairs@);
    }
}

/// Resolves the names of all components of a build, in place: fills in unset
/// package and library names, then links every component to the packages of
/// the others. Entries that a component already has are kept as they are.
pub fn resolve(components: &mut Vec<Component>, cdylib: &Option<String>)
    ensures
        views_of_components(final(components)@) == resolved(
            views_of_components(old(components)@),
            opt_view(*cdylib),
        ),
        final(components)@.len() == old(components)@.len(),
        forall|i: int|
            0 <= i < old(components)@.len() && old(components)@[i].config.package_name is None
                ==> (#[trigger] final(components)@[i])@.config.package_name == Some(
                default_package_name(old(components)@[i]@.namespace),
            ),
        forall|i: int|
            0 <= i < old(components)@.len() && old(components)@[i].config.cdylib_name is None
                ==> (#[trigger] final(components)@[i])@.config.cdylib_name == Some(
                match cdylib {
                    Some(name) => name@,
                    None => default_cdylib_name(old(components)@[i]@.namespace),
                },
            ),
{
    let ghost start = views_of_components(components@);
    let n: usize = components.len();
    let mut i: usize = 0;
    while i < n
        invariant
            i <= n,
            n == components@.len(),
            start.len() == n,
            forall|j: int| 0 <= j < i ==> (#[trigger] components@[j])@ == with_defaults(start[j], opt_view(*cdylib)),
            forall|j: int| i <= j < n ==> (#[trigger] components@[j])@ == start[j],
        decreases n - i,
    {
        fill_defaults(&mut components[i], cdylib);
        i = i + 1;
    }
    let ghost filled = views_of_components(components@);
    let table = build_table(components);
    proof {
        lemma_table_agrees(filled, start);
    }
    let mut i: usize = 0;
    while i < n
        invariant
            i <= n,
            n == components@.len(),
            start.len() == n,
            table@ == package_table(start),
            forall|j: int| 0 <= j < i ==> (#[trigger] components@[j])@ == resolved_component(start[j], opt_view(*cdylib), table@),
            forall|j: int| i <= j < n ==> (#[trigger] components@[j])@ == with_defaults(start[j], opt_view(*cdylib)),
        decreases n - i,
    {
        link(&mut components[i], &table);
        i = i + 1;
    }
    proof {
        assert(views_of_components(components@) =~= resolved(start, opt_view(*cdylib)));
    }
}

/// The table has a crate name exactly if some component has it.
pub proof fn lemma_table_keys(components: Seq<ComponentView>, key: Seq<char>)
    ensures
        package_table(components).contains_key(key) <==> exists|i: int|
            0 <= i < components.len() && (#[trigger] components[i]).crate_name == key,
    decreases components.len(),
{
    if components.len() > 0 {
        let before = components.drop_last();
        lemma_table_keys(before, key);
        if package_table(components).contains_key(key) {
            if components.last().crate_name == key {
                assert(components[components.len() - 1].crate_name == key);
            } else {
                let i = choose|i: int|
                    0 <= i < before.len() && (#[trigger] before[i]).crate_name == key;
                assert(components[i].crate_name == key);
            }
        }
        if exists|i: int| 0 <= i < components.len() && (#[trigger] components[i]).crate_name == key {
            let i = choose|i: int|
                0 <= i < components.len() && (#[trigger] components[i]).crate_name == key;
            if i < components.len() - 1 {
                assert(before[i].crate_name == key);
            }
        }
    }
}

/// The table gives a crate name the package of the last component with it.
pub proof fn lemma_table_value(components: Seq<ComponentView>, last: int)
    requires
        0 <= last < components.len(),
        forall|k: int|
            last < k < components.len() ==> (#[trigger] components[k]).crate_name
                != components[last].crate_name,
    ensures
        package_table(components).contains_key(components[last].crate_name),
        package_table(components)[components[last].crate_name] == package_of(components[last]),
    decreases components.len(),
{
    if last < components.len() - 1 {
        let before = components.drop_last();
        assert(before[last] == components[last]);
        assert forall|k: int| last < k < before.len() implies (#[trigger] before[k]).crate_name
            != before[last].crate_name by {
            assert(components[k].crate_name != components[last].crate_name);
        }
        lemma_table_value(before, last);
        assert(components[components.len() - 1].crate_name != components[last].crate_name);
    }
}

/// Two lists that agree, place by place, on crate name and package have one
/// table.
pub proof fn lemma_table_agrees(first: Seq<ComponentView>, second: Seq<ComponentView>)
    requires
        first.len() == second.len(),
        forall|i: int|
            0 <= i < first.len() ==> (#[trigger] first[i]).crate_name == second[i].crate_name
                && package_of(first[i]) == package_of(second[i]),
    ensures
        package_table(first) == package_table(second),
    decreases first.len(),
{
    if first.len() > 0 {
        lemma_table_agrees(first.drop_last(), second.drop_last());
    }
}

/// Resolution is idempotent: resolving what was resolved changes nothing.
pub proof fn law_resolution_idempotent(components: Seq<ComponentView>, cdylib: Option<Seq<char>>)
    ensures
        resolved(resolved(components, cdylib), cdylib) == resolved(components, cdylib),
{
    let once = resolved(components, cdylib);
    let twice = resolved(once, cdylib);
    lemma_table_agrees(once, components);
    assert forall|i: int| 0 <= i < once.len() implies twice[i] == once[i] by {
        let table = package_table(components);
        let c = components[i];
        assert(linked_packages(
            c.crate_name,
            linked_packages(c.crate_name, c.config.external_packages, table),
            table,
        ) =~= linked_packages(c.crate_name, c.config.external_packages, table));
    }
    assert(twice =~= once);
}

/// After resolution, a component maps the crate name of another component
/// to that component's resolved package. This is stated for a component `a`
/// that had no entry of its own for the crate of `b`, and for a `b` that is
/// the last component with its crate name: an entry that `a` already had
/// stays, and of two components with one crate name the later one counts.
pub proof fn law_links_to_other_components(
    components: Seq<ComponentView>,
    cdylib: Option<Seq<char>>,
    a: int,
    b: int,
)
    requires
        0 <= a < components.len(),
        0 <= b < components.len(),
        components[a].crate_name != components[b].crate_name,
        !components[a].config.external_packages.contains_key(components[b].crate_name),
        forall|k: int|
            b < k < components.len() ==> (#[trigger] components[k]).crate_name
                != components[b].crate_name,
    ensures
        resolved(components, cdylib)[a].config.external_packages.contains_key(
            components[b].crate_name,
        ),
        Some(resolved(components, cdylib)[a].config.external_packages[components[b].crate_name])
            == resolved(components, cdylib)[b].config.package_name,
{
    lemma_table_value(components, b);
}

/// Resolution never links a component to itself: after resolution a
/// component has an entry for its own crate name only if it had one before,
/// and then that entry is unchanged.
pub proof fn law_no_link_to_itself(
    components: Seq<ComponentView>,
    cdylib: Option<Seq<char>>,
    a: int,
)
    requires
        0 <= a < components.len(),
    ensures
        resolved(components, cdylib)[a].config.external_packages.contains_key(
            components[a].crate_name,
        ) <==> components[a].config.external_packages.contains_key(components[a].crate_name),
        !components[a].config.external_packages.contains_key(components[a].crate_name)
            ==> !resolved(components, cdylib)[a].config.external_packages.contains_key(
            resolved(components, cdylib)[a].crate_name,
        ),
{
}

/// An entry that a component had before resolution is there afterwards with
/// the same package, whatever the table says of that crate.
pub proof fn law_existing_entries_kept(
    components: Seq<ComponentView>,
    cdylib: Option<Seq<char>>,
    a: int,
    crate_name: Seq<char>,
)
    requires
        0 <= a < components.len(),
        components[a].config.external_packages.contains_key(crate_name),
    ensures
        resolved(components, cdylib)[a].config.external_packages.contains_key(crate_name),
        resolved(components, cdylib)[a].config.external_packages[crate_name]
            == components[a].config.external_packages[crate_name],
{
}

/// Resolution adds nothing but links to other components of the build: a
/// crate name that a component maps afterwards was mapped before, or is the
/// crate name of another component.
pub proof fn law_links_only_to_components(
    components: Seq<ComponentView>,
    cdylib: Option<Seq<char>>,
    a: int,
    crate_name: Seq<char>,
)
    requires
        0 <= a < components.len(),
        resolved(components, cdylib)[a].config.external_packages.contains_key(crate_name),
        !components[a].config.external_packages.contains_key(crate_name),
    ensures
        crate_name != components[a].crate_name,
        exists|b: int|
            0 <= b < components.len() && (#[trigger] components[b]).crate_name == crate_name,
{
    lemma_table_keys(components, crate_name);
}

} // verus!
