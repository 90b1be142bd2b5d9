//! The package sets that belong to each container profile.

use crate::profile::ContainerType;
use crate::text::push_name;
use vstd::prelude::*;

verus! {

/// The package that provides repository management inside the image. It is
/// installed before any repository is registered.
pub open spec fn tooling_package() -> Seq<char> {
    "software-properties-common"@
}

/// The packages of a runtime image: a minimal unattended userland.
pub open spec fn runtime_packages() -> Seq<Seq<char>> {
    seq!["ca-certificates"@, "locales"@, "netbase"@, "tzdata"@]
}

/// The packages that are removed again from a runtime image once everything
/// else is installed: they are only needed while the image is built.
pub open spec fn runtime_cleanup_packages() -> Seq<Seq<char>> {
    seq!["software-properties-common"@, "gnupg"@]
}

/// The packages of an interactive image: a command-line environment close to
/// the one of a desktop installation.
pub open spec fn interactive_packages() -> Seq<Seq<char>> {
    seq![
        "bash-completion"@,
        "ca-certificates"@,
        "curl"@,
        "git"@,
        "less"@,
        "locales"@,
        "man-db"@,
        "nano"@,
        "openssh-client"@,
        "sudo"@,
        "tzdata"@,
        "vim"@,
        "wget"@,
    ]
}

/// The packages that a profile always installs.
pub open spec fn install_set(profile: ContainerType) -> Seq<Seq<char>> {
    match profile {
        ContainerType::Runtime => runtime_packages(),
        ContainerType::Interactive => interactive_packages(),
    }
}

/// The packages that a profile removes after installation. Empty where the
/// profile removes nothing.
pub open spec fn cleanup_set(profile: ContainerType) -> Seq<Seq<char>> {
    match profile {
        ContainerType::Runtime => runtime_cleanup_packages(),
        ContainerType::Interactive => Seq::empty(),
    }
}

/// Every name of `names` has at least one character.
pub open spec fn names_nonempty(names: Seq<Seq<char>>) -> bool {
    forall|i: int| 0 <= i < names.len() ==> (#[trigger] names[i]).len() > 0
}

/// The names that a build asks the package manager to install once the
/// index is refreshed: the profile's own set and the caller's additions,
/// taken as a set.
pub open spec fn requested_packages(profile: ContainerType, extras: Seq<Seq<char>>) -> Set<
    Seq<char>,
> {
    install_set(profile).to_set().union(extras.to_set())
}

/// Looks up the package sets of `profile`: first the packages to install,
/// second the packages to remove afterwards.
///
/// Every profile installs something; only the runtime profile removes
/// anything.
pub fn resolve(profile: ContainerType) -> (sets: (Vec<String>, Vec<String>))
    ensures
        sets.0.deep_view() == install_set(profile),
        sets.1.deep_view() == cleanup_set(profile),
        sets.0.len() > 0,
        sets.1.len() > 0 <==> profile == ContainerType::Runtime,
{
    let mut install: Vec<String> = Vec::new();
    let mut cleanup: Vec<String> = Vec::new();
    match profile {
        ContainerType::Runtime => {
            push_name(&mut install, "ca-certificates");
            push_name(&mut install, "locales");
            push_name(&mut install, "netbase");
            push_name(&mut install, "tzdata");
            push_name(&mut cleanup, "software-properties-common");
            push_name(&mut cleanup, "gnupg");
        },
        ContainerType::Interactive => {
            push_name(&mut install, "bash-completion");
            push_name(&mut install, "ca-certificates");
            push_name(&mut install, "curl");
            push_name(&mut install, "git");
            push_name(&mut install, "less");
            push_name(&mut install, "locales");
            push_name(&mut install, "man-db");
            push_name(&mut install, "nano");
            push_name(&mut install, "openssh-client");
            push_name(&mut install, "sudo");
            push_name(&mut install, "tzdata");
            push_name(&mut install, "vim");
            push_name(&mut install, "wget");
        },
    }
    assert(install.deep_view().len() == install.len());
    (install, cleanup)
}

/// Every profile has packages to install, and the runtime profile is the
/// only one with packages to remove.
pub proof fn lemma_profile_totality(profile: ContainerType)
    ensures
        install_set(profile).len() > 0,
        cleanup_set(profile).len() > 0 <==> profile == ContainerType::Runtime,
{
}

/// The names in the fixed package sets are never empty.
pub proof fn lemma_fixed_names_nonempty(profile: ContainerType)
    ensures
        names_nonempty(install_set(profile)),
        names_nonempty(cleanup_set(profile)),
        tooling_package().len() > 0,
{
    reveal_strlit("software-properties-common");
    reveal_strlit("gnupg");
    reveal_strlit("ca-certificates");
    reveal_strlit("locales");
    reveal_strlit("netbase");
    reveal_strlit("tzdata");
    reveal_strlit("bash-completion");
    reveal_strlit("curl");
    reveal_strlit("git");
    reveal_strlit("less");
    reveal_strlit("man-db");
    reveal_strlit("nano");
    reveal_strlit("openssh-client");
    reveal_strlit("sudo");
    reveal_strlit("vim");
    reveal_strlit("wget");
}

/// Asking again for a package that is already asked for changes nothing:
/// a name that the profile installs anyway, or that the caller has already
/// added, may be added once more without changing what is requested.
pub proof fn lemma_duplicate_request_is_harmless(
    profile: ContainerType,
    extras: Seq<Seq<char>>,
    name: Seq<char>,
)
    requires
        requested_packages(profile, extras).contains(name),
    ensures
        requested_packages(profile, extras.push(name)) == requested_packages(profile, extras),
{
    let before = requested_packages(profile, extras);
    let after = requested_packages(profile, extras.push(name));
    assert forall|n: Seq<char>| before.contains(n) <==> after.contains(n) by {
        if extras.to_set().contains(n) {
            let i = choose|i: int| 0 <= i < extras.len() && extras[i] == n;
            assert(extras.push(name)[i] == n);
        }
        if extras.push(name).to_set().contains(n) {
            let i = choose|i: int| 0 <= i < extras.push(name).len() && extras.push(name)[i] == n;
            assert(i < extras.len() ==> extras[i] == n);
        }
    }
}

/// The order in which the caller names additional packages does not change
/// what is requested.
pub proof fn lemma_request_ignores_order(
    profile: ContainerType,
    a: Seq<Seq<char>>,
    b: Seq<Seq<char>>,
)
    requires
        a.to_multiset() == b.to_multiset(),
    ensures
        requested_packages(profile, a) == requested_packages(profile, b),
{
    assert forall|n: Seq<char>| a.to_set().contains(n) <==> b.to_set().contains(n) by {
        vstd::seq_lib::to_multiset_contains(a, n);
        vstd::seq_lib::to_multiset_contains(b, n);
    }
}

} // verus!
