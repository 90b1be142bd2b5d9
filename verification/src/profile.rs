//! The container profiles and the names derived from them.

use vstd::prelude::*;

verus! {

/// The kind of container to build.
///
/// `Runtime` is a small image for unattended use; `Interactive` carries a
/// fuller command-line environment.
#[derive(Clone, Copy, Debug, PartialEq, Eq, PartialOrd, Ord, Hash, Structural)]
pub enum ContainerType {
    Runtime,
    Interactive,
}

impl ContainerType {
    /// The lower-case name of the profile.
    pub open spec fn label(self) -> Seq<char> {
        match self {
            ContainerType::Runtime => "runtime"@,
            ContainerType::Interactive => "interactive"@,
        }
    }

    /// The name under which the finished image is committed.
    pub open spec fn image_label(self) -> Seq<char> {
        "pop-container-"@ + self.label()
    }

    /// The file name of the exported archive.
    pub open spec fn archive_label(self) -> Seq<char> {
        self.image_label() + ".tar"@
    }

    /// Returns the lower-case name of the profile.
    pub fn name(&self) -> (text: String)
        ensures
            text@ == self.label(),
    {
        match self {
            ContainerType::Runtime => "runtime".to_owned(),
            ContainerType::Interactive => "interactive".to_owned(),
        }
    }

    /// Returns the name under which the finished image is committed:
    /// `pop-container-` followed by the profile's name.
    pub fn image_name(&self) -> (text: String)
        ensures
            text@ == self.image_label(),
    {
        let mut text = "pop-container-".to_owned();
        let name = self.name();
        text.append(name.as_str());
        text
    }

    /// Returns the file name of the exported archive: the image name
    /// followed by `.tar`.
    pub fn archive_name(&self) -> (text: String)
        ensures
            text@ == self.archive_label(),
    {
        let mut text = self.image_name();
        text.append(".tar");
        text
    }
}

impl Default for ContainerType {
    /// The profile that is built when none is asked for.
    fn default() -> (profile: ContainerType)
        ensures
            profile == ContainerType::Runtime,
    {
        ContainerType::Runtime
    }
}

/// The two profiles have different names, so neither the image nor the
/// archive of one build can be taken for the other's.
pub proof fn lemma_names_distinguish_profiles(a: ContainerType, b: ContainerType)
    ensures
        a.label() == b.label() <==> a == b,
        a.image_label() == b.image_label() <==> a == b,
        a.archive_label() == b.archive_label() <==> a == b,
{
    reveal_strlit("runtime");
    reveal_strlit("interactive");
    reveal_strlit("pop-container-");
    reveal_strlit(".tar");
    if a != b {
        assert(a.archive_label().len() != b.archive_label().len());
    }
}

} // verus!
