//! What a build asks its caller to do.
//!
//! An [`Action`] is one call into a collaborator: the image backend, the
//! bootstrapper, or the package manager inside the mounted image. The build
//! never performs an action itself.

use crate::error::{ErrorView, PipelineError};
use crate::keyring::{archive_key, trust_key, TrustKey, TrustKeyView};
use crate::packages::{cleanup_set, install_set, resolve, tooling_package};
use crate::repository::{
    base_descriptors, base_repositories, expand_extra, staging_repository, RepositoryDescriptor,
    RepositoryView, CODENAME, MIRROR,
};
use crate::request::{BuildRequest, RequestView};
use crate::stage::Stage;
use crate::text::{copy_names, push_name};
use vstd::prelude::*;

verus! {

/// The bootstrapper variant that unpacks only the essential packages.
pub const VARIANT: &'static str = "minbase";

/// One operation of the package manager inside the mounted image.
#[derive(Debug, PartialEq, Eq)]
pub enum ChrootCommand {
    /// Set an environment variable for every later operation.
    SetEnv { variable: String, value: String },
    /// Install the named packages.
    Install { packages: Vec<String> },
    /// Fetch a signing key and store it in its keyring files.
    AddKey { key: TrustKey },
    /// Register package repositories, in the order given, in addition to
    /// those already registered.
    AddRepository { repositories: Vec<RepositoryDescriptor> },
    /// Refresh the package index.
    UpdateIndex,
    /// Upgrade every installed package.
    Upgrade,
    /// Remove the named packages.
    Remove { packages: Vec<String> },
}

/// What a [`ChrootCommand`] holds, as plain sequences.
pub enum ChrootCommandView {
    SetEnv { variable: Seq<char>, value: Seq<char> },
    Install { packages: Seq<Seq<char>> },
    AddKey { key: TrustKeyView },
    AddRepository { repositories: Seq<RepositoryView> },
    UpdateIndex,
    Upgrade,
    Remove { packages: Seq<Seq<char>> },
}

impl View for ChrootCommand {
    type V = ChrootCommandView;

    open spec fn view(&self) -> ChrootCommandView {
        match self {
            ChrootCommand::SetEnv { variable, value } => ChrootCommandView::SetEnv {
                variable: variable@,
                value: value@,
            },
            ChrootCommand::Install { packages } => ChrootCommandView::Install {
                packages: packages.deep_view(),
            },
            ChrootCommand::AddKey { key } => ChrootCommandView::AddKey { key: key@ },
            ChrootCommand::AddRepository { repositories } => ChrootCommandView::AddRepository {
                repositories: repositories.deep_view(),
            },
            ChrootCommand::UpdateIndex => ChrootCommandView::UpdateIndex,
            ChrootCommand::Upgrade => ChrootCommandView::Upgrade,
            ChrootCommand::Remove { packages } => ChrootCommandView::Remove {
                packages: packages.deep_view(),
            },
        }
    }
}

/// The next thing for the caller to do.
#[derive(Debug, PartialEq, Eq)]
pub enum Action {
    /// Create an empty working container. Its output names the container.
    CreateImage,
    /// Mount the working container. Its output names the mount point.
    MountImage { image: String },
    /// Unpack the base system of `codename` from `mirror` into `mount`.
    Bootstrap { mount: String, codename: String, mirror: String, variant: String },
    /// Run one package manager operation inside the image mounted at `mount`.
    Chroot { mount: String, command: ChrootCommand },
    /// Commit the working container `image` under `name`.
    CommitImage { image: String, name: String, squash: bool, remove_working: bool },
    /// Export the image `name` to the file `archive`.
    ExportImage { name: String, archive: String },
    /// Remove the tag `name`.
    RemoveTag { name: String },
    /// Nothing is left to do: the build succeeded and `archive` is its result.
    Finish { archive: String },
    /// Nothing is left to do: the build failed with `error`.
    Abort { error: PipelineError },
}

/// What an [`Action`] holds, as plain sequences.
pub enum ActionView {
    CreateImage,
    MountImage { image: Seq<char> },
    Bootstrap { mount: Seq<char>, codename: Seq<char>, mirror: Seq<char>, variant: Seq<char> },
    Chroot { mount: Seq<char>, command: ChrootCommandView },
    CommitImage { image: Seq<char>, name: Seq<char>, squash: bool, remove_working: bool },
    ExportImage { name: Seq<char>, archive: Seq<char> },
    RemoveTag { name: Seq<char> },
    Finish { archive: Seq<char> },
    Abort { error: ErrorView },
}

impl ActionView {
    /// Whether the action ends the build. A final action touches nothing
    /// outside the program.
    pub open spec fn is_final(self) -> bool {
        self is Finish || self is Abort
    }
}

impl View for Action {
    type V = ActionView;

    open spec fn view(&self) -> ActionView {
        match self {
            Action::CreateImage => ActionView::CreateImage,
            Action::MountImage { image } => ActionView::MountImage { image: image@ },
            Action::Bootstrap { mount, codename, mirror, variant } => ActionView::Bootstrap {
                mount: mount@,
                codename: codename@,
                mirror: mirror@,
                variant: variant@,
            },
            Action::Chroot { mount, command } => ActionView::Chroot {
                mount: mount@,
                command: command@,
            },
            Action::CommitImage { image, name, squash, remove_working } => ActionView::CommitImage {
                image: image@,
                name: name@,
                squash: *squash,
                remove_working: *remove_working,
            },
            Action::ExportImage { name, archive } => ActionView::ExportImage {
                name: name@,
                archive: archive@,
            },
            Action::RemoveTag { name } => ActionView::RemoveTag { name: name@ },
            Action::Finish { archive } => ActionView::Finish { archive: archive@ },
            Action::Abort { error } => ActionView::Abort { error: error@ },
        }
    }
}

impl Action {
    /// Returns whether the action ends the build.
    pub fn is_final(&self) -> (last: bool)
        ensures
            last == self@.is_final(),
    {
        match self {
            Action::Finish { .. } => true,
            Action::Abort { .. } => true,
            _ => false,
        }
    }
}

/// The package manager operation of a stage that works inside the image.
pub open spec fn command_of(stage: Stage, request: RequestView) -> ChrootCommandView
    recommends
        stage.provisions(),
        request.has_stage(stage),
{
    match stage {
        Stage::LocaleCtype => ChrootCommandView::SetEnv {
            variable: "LC_CTYPE"@,
            value: "en_US.UTF8"@,
        },
        Stage::HomeDirectory => ChrootCommandView::SetEnv { variable: "HOME"@, value: "/root"@ },
        Stage::LocaleAll => ChrootCommandView::SetEnv {
            variable: "LC_ALL"@,
            value: "en_US.UTF8"@,
        },
        Stage::Tooling => ChrootCommandView::Install { packages: seq![tooling_package()] },
        Stage::TrustKey => ChrootCommandView::AddKey { key: archive_key() },
        Stage::BaseRepositories => ChrootCommandView::AddRepository {
            repositories: base_repositories(),
        },
        Stage::ExtraRepository { index } => ChrootCommandView::AddRepository {
            repositories: seq![staging_repository(request.extra_repositories[index as int])],
        },
        Stage::UpdateIndex => ChrootCommandView::UpdateIndex,
        Stage::Upgrade => ChrootCommandView::Upgrade,
        Stage::InstallProfile => ChrootCommandView::Install {
            packages: install_set(request.profile),
        },
        Stage::InstallExtras => ChrootCommandView::Install { packages: request.extra_packages },
        _ => ChrootCommandView::Remove { packages: cleanup_set(request.profile) },
    }
}

/// The action of a stage, for a build whose working container is `image`
/// and is mounted at `mount`.
pub open spec fn action_of(
    stage: Stage,
    request: RequestView,
    image: Seq<char>,
    mount: Seq<char>,
) -> ActionView
    recommends
        request.has_stage(stage),
{
    match stage {
        Stage::Create => ActionView::CreateImage,
        Stage::Mount => ActionView::MountImage { image },
        Stage::Bootstrap => ActionView::Bootstrap {
            mount,
            codename: CODENAME@,
            mirror: MIRROR@,
            variant: VARIANT@,
        },
        Stage::Commit => ActionView::CommitImage {
            image,
            name: request.profile.image_label(),
            squash: true,
            remove_working: true,
        },
        Stage::Export => ActionView::ExportImage {
            name: request.profile.image_label(),
            archive: request.profile.archive_label(),
        },
        Stage::Untag => ActionView::RemoveTag { name: request.profile.image_label() },
        _ => ActionView::Chroot { mount, command: command_of(stage, request) },
    }
}

/// Builds the package manager operation of a stage that works inside the
/// image.
pub(crate) fn command_for(stage: Stage, request: &BuildRequest) -> (command: ChrootCommand)
    requires
        stage.provisions(),
        request@.has_stage(stage),
    ensures
        command@ == command_of(stage, request@),
{
    match stage {
        Stage::LocaleCtype => ChrootCommand::SetEnv {
            variable: "LC_CTYPE".to_owned(),
            value: "en_US.UTF8".to_owned(),
        },
        Stage::HomeDirectory => ChrootCommand::SetEnv {
            variable: "HOME".to_owned(),
            value: "/root".to_owned(),
        },
        Stage::LocaleAll => ChrootCommand::SetEnv {
            variable: "LC_ALL".to_owned(),
            value: "en_US.UTF8".to_owned(),
        },
        Stage::Tooling => {
            let mut packages: Vec<String> = Vec::new();
            assert(packages.deep_view() =~= Seq::empty());
            push_name(&mut packages, "software-properties-common");
            ChrootCommand::Install { packages }
        },
        Stage::TrustKey => ChrootCommand::AddKey { key: trust_key() },
        Stage::BaseRepositories => ChrootCommand::AddRepository {
            repositories: base_descriptors(),
        },
        Stage::ExtraRepository { index } => {
            let mut repositories: Vec<RepositoryDescriptor> = Vec::new();
            repositories.push(expand_extra(request.extra_repositories[index].as_str()));
            assert(repositories.deep_view() =~= seq![
                staging_repository(request@.extra_repositories[index as int]),
            ]);
            ChrootCommand::AddRepository { repositories }
        },
        Stage::UpdateIndex => ChrootCommand::UpdateIndex,
        Stage::Upgrade => ChrootCommand::Upgrade,
        Stage::InstallProfile => {
            let sets = resolve(request.profile);
            ChrootCommand::Install { packages: sets.0 }
        },
        Stage::InstallExtras => ChrootCommand::Install {
            packages: copy_names(&request.extra_packages),
        },
        _ => {
            let sets = resolve(request.profile);
            ChrootCommand::Remove { packages: sets.1 }
        },
    }
}

/// Builds the action of a stage, for a build whose working container is
/// `image` and is mounted at `mount`.
pub(crate) fn action_for(
    stage: Stage,
    request: &BuildRequest,
    image: &String,
    mount: &String,
) -> (action: Action)
    requires
        request@.has_stage(stage),
    ensures
        action@ == action_of(stage, request@, image@, mount@),
{
    match stage {
        Stage::Create => Action::CreateImage,
        Stage::Mount => Action::MountImage { image: image.clone() },
        Stage::Bootstrap => Action::Bootstrap {
            mount: mount.clone(),
            codename: CODENAME.to_owned(),
            mirror: MIRROR.to_owned(),
            variant: VARIANT.to_owned(),
        },
        Stage::Commit => Action::CommitImage {
            image: image.clone(),
            name: request.profile.image_name(),
            squash: true,
            remove_working: true,
        },
        Stage::Export => Action::ExportImage {
            name: request.profile.image_name(),
            archive: request.profile.archive_name(),
        },
        Stage::Untag => Action::RemoveTag { name: request.profile.image_name() },
        _ => Action::Chroot { mount: mount.clone(), command: command_for(stage, request) },
    }
}

} // verus!
