use pop_container_builder::packages::resolve;
use pop_container_builder::profile::ContainerType;

fn names(list: &[&str]) -> Vec<String> {
    list.iter().map(|name| name.to_string()).collect()
}

#[test]
fn runtime_is_the_default_profile() {
    assert_eq!(ContainerType::default(), ContainerType::Runtime);
}

#[test]
fn profile_names_are_lower_case() {
    assert_eq!(ContainerType::Runtime.name(), "runtime");
    assert_eq!(ContainerType::Interactive.name(), "interactive");
}

#[test]
fn image_names_carry_the_profile() {
    assert_eq!(ContainerType::Runtime.image_name(), "pop-container-runtime");
    assert_eq!(ContainerType::Interactive.image_name(), "pop-container-interactive");
}

#[test]
fn archive_names_carry_the_profile() {
    assert_eq!(ContainerType::Runtime.archive_name(), "pop-container-runtime.tar");
    assert_eq!(ContainerType::Interactive.archive_name(), "pop-container-interactive.tar");
}

#[test]
fn archive_is_the_image_name_with_tar() {
    for profile in [ContainerType::Runtime, ContainerType::Interactive] {
        assert_eq!(profile.archive_name(), format!("{}.tar", profile.image_name()));
    }
}

#[test]
fn profiles_are_ordered_as_declared() {
    assert!(ContainerType::Runtime < ContainerType::Interactive);
}

#[test]
fn runtime_packages_are_resolved() {
    let (install, cleanup) = resolve(ContainerType::Runtime);
    assert_eq!(install, names(&["ca-certificates", "locales", "netbase", "tzdata"]));
    assert_eq!(cleanup, names(&["software-properties-common", "gnupg"]));
}

#[test]
fn interactive_packages_are_resolved() {
    let (install, cleanup) = resolve(ContainerType::Interactive);
    assert_eq!(
        install,
        names(&[
            "bash-completion",
            "ca-certificates",
            "curl",
            "git",
            "less",
            "locales",
            "man-db",
            "nano",
            "openssh-client",
            "sudo",
            "tzdata",
            "vim",
            "wget",
        ])
    );
    assert_eq!(cleanup, Vec::<String>::new());
}

#[test]
fn every_profile_installs_something() {
    for profile in [ContainerType::Runtime, ContainerType::Interactive] {
        let (install, _) = resolve(profile);
        assert!(!install.is_empty());
    }
}

#[test]
fn only_runtime_removes_packages() {
    for profile in [ContainerType::Runtime, ContainerType::Interactive] {
        let (_, cleanup) = resolve(profile);
        assert_eq!(!cleanup.is_empty(), profile == ContainerType::Runtime);
    }
}

#[test]
fn fixed_package_names_are_not_empty() {
    for profile in [ContainerType::Runtime, ContainerType::Interactive] {
        let (install, cleanup) = resolve(profile);
        assert!(install.iter().all(|name| !name.is_empty()));
        assert!(cleanup.iter().all(|name| !name.is_empty()));
    }
}

#[test]
fn interactive_is_the_larger_profile() {
    let (runtime, _) = resolve(ContainerType::Runtime);
    let (interactive, _) = resolve(ContainerType::Interactive);
    assert!(runtime.len() < interactive.len());
}

#[test]
fn resolving_twice_gives_the_same_sets() {
    for profile in [ContainerType::Runtime, ContainerType::Interactive] {
        assert_eq!(resolve(profile), resolve(profile));
    }
}
