use pop_container_builder::keyring::trust_key;
use pop_container_builder::repository::{
    base_descriptors, expand_extra, RepositoryDescriptor, CODENAME, MIRROR,
};

fn descriptor(url: &str, suite: &str, components: &[&str]) -> RepositoryDescriptor {
    RepositoryDescriptor {
        url: url.to_string(),
        suite: suite.to_string(),
        components: components.iter().map(|name| name.to_string()).collect(),
    }
}

const ALL: [&str; 4] = ["main", "universe", "multiverse", "restricted"];

#[test]
fn codename_and_mirror_are_fixed() {
    assert_eq!(CODENAME, "jammy");
    assert_eq!(MIRROR, "http://archive.ubuntu.com/ubuntu/");
}

#[test]
fn base_descriptors_are_listed_in_order() {
    assert_eq!(
        base_descriptors(),
        vec![
            descriptor("http://apt.pop-os.org/proprietary", "jammy", &["main"]),
            descriptor("http://apt.pop-os.org/release", "jammy", &["main"]),
            descriptor("http://apt.pop-os.org/ubuntu", "jammy", &ALL),
            descriptor("http://apt.pop-os.org/ubuntu", "jammy-security", &ALL),
            descriptor("http://apt.pop-os.org/ubuntu", "jammy-updates", &ALL),
            descriptor("http://apt.pop-os.org/ubuntu", "jammy-backports", &ALL),
        ]
    );
}

#[test]
fn base_descriptors_share_the_codename() {
    for repository in base_descriptors() {
        assert!(repository.suite.starts_with(CODENAME));
    }
}

#[test]
fn extra_is_expanded_from_the_staging_address() {
    assert_eq!(
        expand_extra("staging-branch"),
        descriptor("http://apt.pop-os.org/staging/staging-branch", "jammy", &["main"])
    );
}

#[test]
fn extra_name_is_taken_as_it_is() {
    assert_eq!(
        expand_extra(""),
        descriptor("http://apt.pop-os.org/staging/", "jammy", &["main"])
    );
    assert_eq!(
        expand_extra("not a branch"),
        descriptor("http://apt.pop-os.org/staging/not a branch", "jammy", &["main"])
    );
}

#[test]
fn trust_key_is_the_archive_key() {
    let key = trust_key();
    assert_eq!(key.keyserver, "keyserver.ubuntu.com");
    assert_eq!(key.key_id, "204DD8AEC33A7AFF");
    assert_eq!(
        key.paths,
        vec![
            "/etc/apt/trusted.gpg.d/pop-keyring-2017-archive.gpg".to_string(),
            "/usr/share/keyrings/pop-archive-keyring.gpg".to_string(),
        ]
    );
}
