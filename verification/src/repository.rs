//! The package repositories that are registered inside the image.

use crate::text::push_name;
use vstd::prelude::*;

verus! {

/// The distribution codename that every repository of a build refers to.
pub const CODENAME: &'static str = "jammy";

/// The mirror from which the base system is bootstrapped.
pub const MIRROR: &'static str = "http://archive.ubuntu.com/ubuntu/";

/// A package source: where it is, which suite of it, and which components.
#[derive(Debug, PartialEq, Eq)]
pub struct RepositoryDescriptor {
    pub url: String,
    pub suite: String,
    pub components: Vec<String>,
}

/// What a [`RepositoryDescriptor`] holds, as plain sequences.
pub struct RepositoryView {
    pub url: Seq<char>,
    pub suite: Seq<char>,
    pub components: Seq<Seq<char>>,
}

impl View for RepositoryDescriptor {
    type V = RepositoryView;

    open spec fn view(&self) -> RepositoryView {
        RepositoryView {
            url: self.url@,
            suite: self.suite@,
            components: self.components.deep_view(),
        }
    }
}

impl DeepView for RepositoryDescriptor {
    type V = RepositoryView;

    open spec fn deep_view(&self) -> RepositoryView {
        self.view()
    }
}

/// The component list of a repository that only carries `main`.
pub open spec fn main_component() -> Seq<Seq<char>> {
    seq!["main"@]
}

/// The component list of the distribution's own archive.
pub open spec fn distribution_components() -> Seq<Seq<char>> {
    seq!["main"@, "universe"@, "multiverse"@, "restricted"@]
}

/// The distribution archive in the suite named by the codename followed by
/// `suffix`.
pub open spec fn distribution_repository(suffix: Seq<char>) -> RepositoryView {
    RepositoryView {
        url: "http://apt.pop-os.org/ubuntu"@,
        suite: CODENAME@ + suffix,
        components: distribution_components(),
    }
}

/// The repositories that every build registers, in the order in which they
/// are registered: the proprietary channel, the release channel, and the
/// distribution archive with its security, updates and backports suites.
pub open spec fn base_repositories() -> Seq<RepositoryView> {
    seq![
        RepositoryView {
            url: "http://apt.pop-os.org/proprietary"@,
            suite: CODENAME@,
            components: main_component(),
        },
        RepositoryView {
            url: "http://apt.pop-os.org/release"@,
            suite: CODENAME@,
            components: main_component(),
        },
        distribution_repository(Seq::empty()),
        distribution_repository("-security"@),
        distribution_repository("-updates"@),
        distribution_repository("-backports"@),
    ]
}

/// The staging repository of the branch `name`.
pub open spec fn staging_repository(name: Seq<char>) -> RepositoryView {
    RepositoryView {
        url: "http://apt.pop-os.org/staging/"@ + name,
        suite: CODENAME@,
        components: main_component(),
    }
}

/// Everything that a build registers: the base repositories, followed by
/// the staging repository of each branch in `extras`, in the order given.
pub open spec fn registered_repositories(extras: Seq<Seq<char>>) -> Seq<RepositoryView> {
    base_repositories() + extras.map_values(|name: Seq<char>| staging_repository(name))
}

fn main_component_list() -> (list: Vec<String>)
    ensures
        list.deep_view() == main_component(),
{
    let mut list: Vec<String> = Vec::new();
    push_name(&mut list, "main");
    list
}

fn distribution_descriptor(suffix: &str) -> (descriptor: RepositoryDescriptor)
    ensures
        descriptor@ == distribution_repository(suffix@),
{
    let mut suite = CODENAME.to_owned();
    suite.append(suffix);
    let mut components: Vec<String> = Vec::new();
    push_name(&mut components, "main");
    push_name(&mut components, "universe");
    push_name(&mut components, "multiverse");
    push_name(&mut components, "restricted");
    assert(components.deep_view() == distribution_components());
    RepositoryDescriptor { url: "http://apt.pop-os.org/ubuntu".to_owned(), suite, components }
}

/// Returns the repositories that every build registers, in their fixed
/// order.
pub fn base_descriptors() -> (list: Vec<RepositoryDescriptor>)
    ensures
        list.deep_view() == base_repositories(),
{
    let mut list: Vec<RepositoryDescriptor> = Vec::new();
    list.push(
        RepositoryDescriptor {
            url: "http://apt.pop-os.org/proprietary".to_owned(),
            suite: CODENAME.to_owned(),
            components: main_component_list(),
        },
    );
    list.push(
        RepositoryDescriptor {
            url: "http://apt.pop-os.org/release".to_owned(),
            suite: CODENAME.to_owned(),
            components: main_component_list(),
        },
    );
    let plain = distribution_descriptor("");
    proof {
        reveal_strlit("");
    }
    list.push(plain);
    list.push(distribution_descriptor("-security"));
    list.push(distribution_descriptor("-updates"));
    list.push(distribution_descriptor("-backports"));
    list
}

/// Expands the short name of a staging branch into its repository: the
/// staging address followed by the name, the fixed codename, and the single
/// component `main`.
///
/// The name is taken as it is; whether such a branch exists is for the
/// package manager to say when the repository is registered.
pub fn expand_extra(name: &str) -> (descriptor: RepositoryDescriptor)
    ensures
        descriptor@ == staging_repository(name@),
{
    let mut url = "http://apt.pop-os.org/staging/".to_owned();
    url.append(name);
    RepositoryDescriptor { url, suite: CODENAME.to_owned(), components: main_component_list() }
}

/// The base repositories come first and unchanged, whatever the caller adds;
/// each addition follows at its own place.
pub proof fn lemma_registration_keeps_order(extras: Seq<Seq<char>>)
    ensures
        registered_repositories(extras).len() == base_repositories().len() + extras.len(),
        registered_repositories(extras).take(base_repositories().len() as int)
            == base_repositories(),
        forall|i: int|
            0 <= i < extras.len() ==> #[trigger] registered_repositories(extras)[
                base_repositories().len() + i
            ] == staging_repository(extras[i]),
{
}

/// Reordering the caller's additions reorders only the additions: the base
/// repositories keep their places, and every branch still has its
/// repository registered.
pub proof fn lemma_base_order_survives_permutation(a: Seq<Seq<char>>, b: Seq<Seq<char>>)
    requires
        a.to_multiset() == b.to_multiset(),
    ensures
        registered_repositories(a).len() == registered_repositories(b).len(),
        forall|i: int|
            0 <= i < base_repositories().len() ==> registered_repositories(a)[i]
                == registered_repositories(b)[i],
        forall|name: Seq<char>|
            a.contains(name) ==> registered_repositories(b).contains(staging_repository(name)),
{
    vstd::seq_lib::to_multiset_len(a);
    vstd::seq_lib::to_multiset_len(b);
    assert forall|name: Seq<char>| a.contains(name) implies registered_repositories(b).contains(
        staging_repository(name),
    ) by {
        vstd::seq_lib::to_multiset_contains(a, name);
        vstd::seq_lib::to_multiset_contains(b, name);
        let i = choose|i: int| 0 <= i < b.len() && b[i] == name;
        assert(registered_repositories(b)[base_repositories().len() + i] == staging_repository(
            name,
        ));
    }
}

} // verus!
