//! What the caller asks for.

use crate::packages::{cleanup_set, resolve};
use crate::profile::ContainerType;
use crate::stage::Stage;
use vstd::prelude::*;

verus! {

/// One build: the profile, the staging branches to register besides the
/// fixed repositories, and the packages to install besides the profile's
/// own.
#[derive(Debug, PartialEq, Eq)]
pub struct BuildRequest {
    pub profile: ContainerType,
    pub extra_repositories: Vec<String>,
    pub extra_packages: Vec<String>,
}

/// What a [`BuildRequest`] holds, as plain sequences.
pub struct RequestView {
    pub profile: ContainerType,
    pub extra_repositories: Seq<Seq<char>>,
    pub extra_packages: Seq<Seq<char>>,
}

impl RequestView {
    /// The number of staging branches to register.
    pub open spec fn extras(self) -> nat {
        self.extra_repositories.len()
    }

    /// Whether the build ends its work inside the image by removing
    /// packages: it does where the profile's cleanup set is not empty.
    pub open spec fn cleanup(self) -> bool {
        cleanup_set(self.profile).len() > 0
    }

    /// The number of stages of the build.
    pub open spec fn stages(self) -> nat {
        Stage::count(self.extras(), self.cleanup())
    }

    /// The stage at place `k` of the build.
    pub open spec fn stage_at(self, k: nat) -> Stage {
        Stage::at(k, self.extras(), self.cleanup())
    }

    /// Whether `stage` occurs in the build.
    pub open spec fn has_stage(self, stage: Stage) -> bool {
        stage.valid(self.extras(), self.cleanup())
    }
}

impl View for BuildRequest {
    type V = RequestView;

    open spec fn view(&self) -> RequestView {
        RequestView {
            profile: self.profile,
            extra_repositories: self.extra_repositories.deep_view(),
            extra_packages: self.extra_packages.deep_view(),
        }
    }
}

impl DeepView for BuildRequest {
    type V = RequestView;

    open spec fn deep_view(&self) -> RequestView {
        self.view()
    }
}

impl BuildRequest {
    /// Puts a request together. The names are taken as they are: nothing
    /// about them is checked here, and a name that occurs twice is kept
    /// twice.
    pub fn new(
        profile: ContainerType,
        extra_repositories: Vec<String>,
        extra_packages: Vec<String>,
    ) -> (request: BuildRequest)
        ensures
            request@ == (RequestView {
                profile,
                extra_repositories: extra_repositories.deep_view(),
                extra_packages: extra_packages.deep_view(),
            }),
    {
        BuildRequest { profile, extra_repositories, extra_packages }
    }

    /// Returns whether the build removes packages at the end of its work
    /// inside the image.
    pub fn has_cleanup(&self) -> (cleanup: bool)
        ensures
            cleanup == self@.cleanup(),
    {
        let sets = resolve(self.profile);
        sets.1.len() > 0
    }
}

} // verus!
