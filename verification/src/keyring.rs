//! The key that signs the repositories of a build.

use crate::text::push_name;
use vstd::prelude::*;

verus! {

/// A signing key: the server to fetch it from, its identifier, and the
/// keyring files in which it has to end up for the package manager to trust
/// what it signs.
#[derive(Debug, PartialEq, Eq)]
pub struct TrustKey {
    pub keyserver: String,
    pub key_id: String,
    pub paths: Vec<String>,
}

/// What a [`TrustKey`] holds, as plain sequences.
pub struct TrustKeyView {
    pub keyserver: Seq<char>,
    pub key_id: Seq<char>,
    pub paths: Seq<Seq<char>>,
}

impl View for TrustKey {
    type V = TrustKeyView;

    open spec fn view(&self) -> TrustKeyView {
        TrustKeyView {
            keyserver: self.keyserver@,
            key_id: self.key_id@,
            paths: self.paths.deep_view(),
        }
    }
}

impl DeepView for TrustKey {
    type V = TrustKeyView;

    open spec fn deep_view(&self) -> TrustKeyView {
        self.view()
    }
}

/// The key of the Pop!_OS archive.
pub open spec fn archive_key() -> TrustKeyView {
    TrustKeyView {
        keyserver: "keyserver.ubuntu.com"@,
        key_id: "204DD8AEC33A7AFF"@,
        paths: seq![
            "/etc/apt/trusted.gpg.d/pop-keyring-2017-archive.gpg"@,
            "/usr/share/keyrings/pop-archive-keyring.gpg"@,
        ],
    }
}

/// Returns the key of the Pop!_OS archive.
pub fn trust_key() -> (key: TrustKey)
    ensures
        key@ == archive_key(),
{
    let mut paths: Vec<String> = Vec::new();
    push_name(&mut paths, "/etc/apt/trusted.gpg.d/pop-keyring-2017-archive.gpg");
    push_name(&mut paths, "/usr/share/keyrings/pop-archive-keyring.gpg");
    assert(paths.deep_view() == archive_key().paths);
    TrustKey {
        keyserver: "keyserver.ubuntu.com".to_owned(),
        key_id: "204DD8AEC33A7AFF".to_owned(),
        paths,
    }
}

} // verus!
