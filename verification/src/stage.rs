//! The stages of a build and their fixed order.
//!
//! A build is a straight line: every stage is attempted once, in the order
//! given by [`Stage::position`]. How many stages there are depends on two
//! things only: how many staging branches the caller adds, and whether the
//! profile has packages to remove.

use vstd::prelude::*;

verus! {

/// One step of a build. Each stage is one call into a collaborator.
#[derive(Clone, Copy, Debug, PartialEq, Eq, Structural)]
pub enum Stage {
    /// Create the empty working container.
    Create,
    /// Mount the working container's file system.
    Mount,
    /// Unpack the minimal base system into the mount point.
    Bootstrap,
    /// Set `LC_CTYPE` for everything that runs inside the image.
    LocaleCtype,
    /// Set `HOME` for everything that runs inside the image.
    HomeDirectory,
    /// Set `LC_ALL` for everything that runs inside the image.
    LocaleAll,
    /// Install the repository management package.
    Tooling,
    /// Import the key that signs the repositories.
    TrustKey,
    /// Register the fixed repositories.
    BaseRepositories,
    /// Register the staging repository of the caller's branch number `index`.
    ExtraRepository { index: usize },
    /// Refresh the package index.
    UpdateIndex,
    /// Upgrade what the base system installed.
    Upgrade,
    /// Install the profile's packages.
    InstallProfile,
    /// Install the caller's additional packages.
    InstallExtras,
    /// Remove the packages that were only needed during the build.
    Cleanup,
    /// Commit the working container as an image.
    Commit,
    /// Export the image to an archive.
    Export,
    /// Remove the tag of the exported image.
    Untag,
}

impl Stage {
    /// Whether the stage occurs in a build with `extras` staging branches
    /// that removes packages at the end exactly if `cleanup`.
    pub open spec fn valid(self, extras: nat, cleanup: bool) -> bool {
        match self {
            Stage::ExtraRepository { index } => index < extras,
            Stage::Cleanup => cleanup,
            _ => true,
        }
    }

    /// The number of stages of a build.
    pub open spec fn count(extras: nat, cleanup: bool) -> nat {
        if cleanup {
            17 + extras
        } else {
            16 + extras
        }
    }

    /// The place of the stage in the build, counted from zero.
    pub open spec fn position(self, extras: nat, cleanup: bool) -> nat {
        match self {
            Stage::Create => 0,
            Stage::Mount => 1,
            Stage::Bootstrap => 2,
            Stage::LocaleCtype => 3,
            Stage::HomeDirectory => 4,
            Stage::LocaleAll => 5,
            Stage::Tooling => 6,
            Stage::TrustKey => 7,
            Stage::BaseRepositories => 8,
            Stage::ExtraRepository { index } => 9 + index as nat,
            Stage::UpdateIndex => 9 + extras,
            Stage::Upgrade => 10 + extras,
            Stage::InstallProfile => 11 + extras,
            Stage::InstallExtras => 12 + extras,
            Stage::Cleanup => 13 + extras,
            Stage::Commit => (Stage::count(extras, cleanup) - 3) as nat,
            Stage::Export => (Stage::count(extras, cleanup) - 2) as nat,
            Stage::Untag => (Stage::count(extras, cleanup) - 1) as nat,
        }
    }

    /// The stage at place `k` of the build.
    pub open spec fn at(k: nat, extras: nat, cleanup: bool) -> Stage {
        if k == 0 {
            Stage::Create
        } else if k == 1 {
            Stage::Mount
        } else if k == 2 {
            Stage::Bootstrap
        } else if k == 3 {
            Stage::LocaleCtype
        } else if k == 4 {
            Stage::HomeDirectory
        } else if k == 5 {
            Stage::LocaleAll
        } else if k == 6 {
            Stage::Tooling
        } else if k == 7 {
            Stage::TrustKey
        } else if k == 8 {
            Stage::BaseRepositories
        } else if k < 9 + extras {
            Stage::ExtraRepository { index: (k - 9) as usize }
        } else if k == 9 + extras {
            Stage::UpdateIndex
        } else if k == 10 + extras {
            Stage::Upgrade
        } else if k == 11 + extras {
            Stage::InstallProfile
        } else if k == 12 + extras {
            Stage::InstallExtras
        } else if cleanup && k == 13 + extras {
            Stage::Cleanup
        } else if k + 3 == Stage::count(extras, cleanup) {
            Stage::Commit
        } else if k + 2 == Stage::count(extras, cleanup) {
            Stage::Export
        } else {
            Stage::Untag
        }
    }

    /// The stage that follows this one, or `None` after the last.
    pub open spec fn successor(self, extras: nat, cleanup: bool) -> Option<Stage> {
        match self {
            Stage::Create => Some(Stage::Mount),
            Stage::Mount => Some(Stage::Bootstrap),
            Stage::Bootstrap => Some(Stage::LocaleCtype),
            Stage::LocaleCtype => Some(Stage::HomeDirectory),
            Stage::HomeDirectory => Some(Stage::LocaleAll),
            Stage::LocaleAll => Some(Stage::Tooling),
            Stage::Tooling => Some(Stage::TrustKey),
            Stage::TrustKey => Some(Stage::BaseRepositories),
            Stage::BaseRepositories => if 0 < extras {
                Some(Stage::ExtraRepository { index: 0 })
            } else {
                Some(Stage::UpdateIndex)
            },
            Stage::ExtraRepository { index } => if index + 1 < extras {
                Some(Stage::ExtraRepository { index: (index + 1) as usize })
            } else {
                Some(Stage::UpdateIndex)
            },
            Stage::UpdateIndex => Some(Stage::Upgrade),
            Stage::Upgrade => Some(Stage::InstallProfile),
            Stage::InstallProfile => Some(Stage::InstallExtras),
            Stage::InstallExtras => if cleanup {
                Some(Stage::Cleanup)
            } else {
                Some(Stage::Commit)
            },
            Stage::Cleanup => Some(Stage::Commit),
            Stage::Commit => Some(Stage::Export),
            Stage::Export => Some(Stage::Untag),
            Stage::Untag => None,
        }
    }

    /// Whether the stage registers repositories.
    pub open spec fn registers(self) -> bool {
        self is BaseRepositories || self is ExtraRepository
    }

    /// Whether the stage installs packages.
    pub open spec fn installs(self) -> bool {
        self is Tooling || self is InstallProfile || self is InstallExtras
    }

    /// Whether the stage runs inside the mounted image, through the package
    /// manager.
    pub open spec fn provisions(self) -> bool {
        !(self is Create || self is Mount || self is Bootstrap || self is Commit || self is Export
            || self is Untag)
    }

    /// The stage's name in diagnostics.
    pub open spec fn label(self) -> Seq<char> {
        match self {
            Stage::Create => "create"@,
            Stage::Mount => "mount"@,
            Stage::Bootstrap => "bootstrap"@,
            Stage::LocaleCtype => "locale-ctype"@,
            Stage::HomeDirectory => "home-directory"@,
            Stage::LocaleAll => "locale-all"@,
            Stage::Tooling => "tooling"@,
            Stage::TrustKey => "trust-key"@,
            Stage::BaseRepositories => "base-repositories"@,
            Stage::ExtraRepository { .. } => "extra-repository"@,
            Stage::UpdateIndex => "update-index"@,
            Stage::Upgrade => "upgrade"@,
            Stage::InstallProfile => "install-profile"@,
            Stage::InstallExtras => "install-extras"@,
            Stage::Cleanup => "cleanup"@,
            Stage::Commit => "commit"@,
            Stage::Export => "export"@,
            Stage::Untag => "untag"@,
        }
    }

    /// Returns the stage that follows this one in a build with `extras`
    /// staging branches, or `None` after the last stage.
    pub fn next(self, extras: usize, cleanup: bool) -> (following: Option<Stage>)
        ensures
            following == self.successor(extras as nat, cleanup),
    {
        match self {
            Stage::Create => Some(Stage::Mount),
            Stage::Mount => Some(Stage::Bootstrap),
            Stage::Bootstrap => Some(Stage::LocaleCtype),
            Stage::LocaleCtype => Some(Stage::HomeDirectory),
            Stage::HomeDirectory => Some(Stage::LocaleAll),
            Stage::LocaleAll => Some(Stage::Tooling),
            Stage::Tooling => Some(Stage::TrustKey),
            Stage::TrustKey => Some(Stage::BaseRepositories),
            Stage::BaseRepositories => {
                if 0 < extras {
                    Some(Stage::ExtraRepository { index: 0 })
                } else {
                    Some(Stage::UpdateIndex)
                }
            },
            Stage::ExtraRepository { index } => {
                if index < extras && index + 1 < extras {
                    Some(Stage::ExtraRepository { index: index + 1 })
                } else {
                    Some(Stage::UpdateIndex)
                }
            },
            Stage::UpdateIndex => Some(Stage::Upgrade),
            Stage::Upgrade => Some(Stage::InstallProfile),
            Stage::InstallProfile => Some(Stage::InstallExtras),
            Stage::InstallExtras => {
                if cleanup {
                    Some(Stage::Cleanup)
                } else {
                    Some(Stage::Commit)
                }
            },
            Stage::Cleanup => Some(Stage::Commit),
            Stage::Commit => Some(Stage::Export),
            Stage::Export => Some(Stage::Untag),
            Stage::Untag => None,
        }
    }

    /// Returns the stage's name for diagnostics.
    pub fn name(&self) -> (text: String)
        ensures
            text@ == self.label(),
    {
        match self {
            Stage::Create => "create".to_owned(),
            Stage::Mount => "mount".to_owned(),
            Stage::Bootstrap => "bootstrap".to_owned(),
            Stage::LocaleCtype => "locale-ctype".to_owned(),
            Stage::HomeDirectory => "home-directory".to_owned(),
            Stage::LocaleAll => "locale-all".to_owned(),
            Stage::Tooling => "tooling".to_owned(),
            Stage::TrustKey => "trust-key".to_owned(),
            Stage::BaseRepositories => "base-repositories".to_owned(),
            Stage::ExtraRepository { .. } => "extra-repository".to_owned(),
            Stage::UpdateIndex => "update-index".to_owned(),
            Stage::Upgrade => "upgrade".to_owned(),
            Stage::InstallProfile => "install-profile".to_owned(),
            Stage::InstallExtras => "install-extras".to_owned(),
            Stage::Cleanup => "cleanup".to_owned(),
            Stage::Commit => "commit".to_owned(),
            Stage::Export => "export".to_owned(),
            Stage::Untag => "untag".to_owned(),
        }
    }
}

/// Going to the following stage moves one place forward and stays inside
/// the build; only the last stage has nothing following it.
pub proof fn lemma_successor_advances(stage: Stage, extras: nat, cleanup: bool)
    requires
        stage.valid(extras, cleanup),
        extras <= usize::MAX,
    ensures
        stage.position(extras, cleanup) < Stage::count(extras, cleanup),
        match stage.successor(extras, cleanup) {
            Some(following) => following.valid(extras, cleanup) && following.position(
                extras,
                cleanup,
            ) == stage.position(extras, cleanup) + 1,
            None => stage.position(extras, cleanup) + 1 == Stage::count(extras, cleanup),
        },
{
}

/// A stage of the build is the stage at its own place.
pub proof fn lemma_stage_at_its_position(stage: Stage, extras: nat, cleanup: bool)
    requires
        stage.valid(extras, cleanup),
    ensures
        stage.position(extras, cleanup) < Stage::count(extras, cleanup),
        Stage::at(stage.position(extras, cleanup), extras, cleanup) == stage,
{
}

/// Every place of the build holds a stage of the build, whose place it is.
pub proof fn lemma_place_holds_its_stage(k: nat, extras: nat, cleanup: bool)
    requires
        extras <= usize::MAX,
        k < Stage::count(extras, cleanup),
    ensures
        Stage::at(k, extras, cleanup).valid(extras, cleanup),
        Stage::at(k, extras, cleanup).position(extras, cleanup) == k,
{
}

/// The order that the build depends on: the key is imported before any
/// repository is registered, every repository is registered before the
/// index is refreshed, the index is refreshed before the profile's packages
/// are installed, and nothing is removed before everything is installed.
/// All work inside the image lies between bootstrapping and committing.
pub proof fn lemma_stage_order(a: Stage, b: Stage, extras: nat, cleanup: bool)
    requires
        a.valid(extras, cleanup),
        b.valid(extras, cleanup),
    ensures
        a is TrustKey && b.registers() ==> a.position(extras, cleanup) < b.position(
            extras,
            cleanup,
        ),
        a.registers() && b is UpdateIndex ==> a.position(extras, cleanup) < b.position(
            extras,
            cleanup,
        ),
        a is UpdateIndex && (b is InstallProfile || b is InstallExtras) ==> a.position(
            extras,
            cleanup,
        ) < b.position(extras, cleanup),
        a.installs() && b is Cleanup ==> a.position(extras, cleanup) < b.position(extras, cleanup),
        !a.provisions() && b.provisions() ==> (a.position(extras, cleanup) < b.position(
            extras,
            cleanup,
        ) <==> (a is Create || a is Mount || a is Bootstrap)),
{
}

} // verus!
