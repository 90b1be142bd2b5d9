//! The tools behind the actions that are run as processes.
//!
//! The image backend is `buildah`, with `podman` for the export; the
//! bootstrapper is `debootstrap`. An action of one of them is a command
//! line. What happens inside the image goes through the package manager's
//! own library and has no command line here.

use crate::action::{Action, ActionView};
use crate::handoff::{Correction, CorrectionView};
use crate::text::push_name;
use vstd::prelude::*;

verus! {

/// What becomes of the standard output of a tool.
#[derive(Clone, Copy, Debug, PartialEq, Eq, Structural)]
pub enum Reading {
    /// It is collected and reported with the outcome: it names a handle.
    Captured,
    /// It is passed on to the log line by line while the tool runs.
    Streamed,
    /// It is left alone.
    Inherited,
}

/// A tool to run: the program, its arguments, and what becomes of what it
/// prints.
#[derive(Debug, PartialEq, Eq)]
pub struct CommandLine {
    pub program: String,
    pub arguments: Vec<String>,
    pub reading: Reading,
}

/// What a [`CommandLine`] holds, as plain sequences.
pub struct CommandLineView {
    pub program: Seq<char>,
    pub arguments: Seq<Seq<char>>,
    pub reading: Reading,
}

impl View for CommandLine {
    type V = CommandLineView;

    open spec fn view(&self) -> CommandLineView {
        CommandLineView {
            program: self.program@,
            arguments: self.arguments.deep_view(),
            reading: self.reading,
        }
    }
}

/// The options of a commit: `--squash` to flatten the layers, `--rm` to
/// remove the working container.
pub open spec fn commit_options(squash: bool, remove_working: bool) -> Seq<Seq<char>> {
    (if squash {
        seq!["--squash"@]
    } else {
        Seq::empty()
    }) + (if remove_working {
        seq!["--rm"@]
    } else {
        Seq::empty()
    })
}

/// The command line of an action, where the action is run as a process.
pub open spec fn command_line_of(action: ActionView) -> Option<CommandLineView> {
    match action {
        ActionView::CreateImage => Some(
            CommandLineView {
                program: "buildah"@,
                arguments: seq!["from"@, "scratch"@],
                reading: Reading::Captured,
            },
        ),
        ActionView::MountImage { image } => Some(
            CommandLineView {
                program: "buildah"@,
                arguments: seq!["mount"@, image],
                reading: Reading::Captured,
            },
        ),
        ActionView::Bootstrap { mount, codename, mirror, variant } => Some(
            CommandLineView {
                program: "debootstrap"@,
                arguments: seq!["--variant="@ + variant, codename, mount, mirror],
                reading: Reading::Streamed,
            },
        ),
        ActionView::CommitImage { image, name, squash, remove_working } => Some(
            CommandLineView {
                program: "buildah"@,
                arguments: seq!["commit"@] + commit_options(squash, remove_working) + seq![
                    image,
                    name,
                ],
                reading: Reading::Inherited,
            },
        ),
        ActionView::ExportImage { name, archive } => Some(
            CommandLineView {
                program: "podman"@,
                arguments: seq!["save"@, "-o"@, archive, name],
                reading: Reading::Inherited,
            },
        ),
        ActionView::RemoveTag { name } => Some(
            CommandLineView {
                program: "buildah"@,
                arguments: seq!["rmi"@, name],
                reading: Reading::Inherited,
            },
        ),
        _ => None,
    }
}

/// The command line of a correction: the tool, the user, the file.
pub open spec fn correction_line_of(correction: CorrectionView) -> CommandLineView {
    CommandLineView {
        program: correction.ownership.tool_label(),
        arguments: seq![correction.user, correction.path],
        reading: Reading::Inherited,
    }
}

impl Action {
    /// Returns the command line of the action, or `None` where the action
    /// is not run as a process: inside the image, and at the end of the
    /// build.
    pub fn command_line(&self) -> (line: Option<CommandLine>)
        ensures
            line is Some <==> command_line_of(self@) is Some,
            line matches Some(tool) ==> command_line_of(self@) == Some(tool@),
    {
        let mut arguments: Vec<String> = Vec::new();
        match self {
            Action::CreateImage => {
                push_name(&mut arguments, "from");
                push_name(&mut arguments, "scratch");
                assert(arguments.deep_view() =~= seq!["from"@, "scratch"@]);
                Some(
                    CommandLine {
                        program: "buildah".to_owned(),
                        arguments,
                        reading: Reading::Captured,
                    },
                )
            },
            Action::MountImage { image } => {
                push_name(&mut arguments, "mount");
                push_name(&mut arguments, image.as_str());
                assert(arguments.deep_view() =~= seq!["mount"@, image@]);
                Some(
                    CommandLine {
                        program: "buildah".to_owned(),
                        arguments,
                        reading: Reading::Captured,
                    },
                )
            },
            Action::Bootstrap { mount, codename, mirror, variant } => {
                let mut option = "--variant=".to_owned();
                option.append(variant.as_str());
                push_name(&mut arguments, option.as_str());
                push_name(&mut arguments, codename.as_str());
                push_name(&mut arguments, mount.as_str());
                push_name(&mut arguments, mirror.as_str());
                assert(arguments.deep_view() =~= seq![
                    "--variant="@ + variant@,
                    codename@,
                    mount@,
                    mirror@,
                ]);
                Some(
                    CommandLine {
                        program: "debootstrap".to_owned(),
                        arguments,
                        reading: Reading::Streamed,
                    },
                )
            },
            Action::CommitImage { image, name, squash, remove_working } => {
                push_name(&mut arguments, "commit");
                if *squash {
                    push_name(&mut arguments, "--squash");
                }
                if *remove_working {
                    push_name(&mut arguments, "--rm");
                }
                push_name(&mut arguments, image.as_str());
                push_name(&mut arguments, name.as_str());
                assert(arguments.deep_view() =~= seq!["commit"@] + commit_options(
                    *squash,
                    *remove_working,
                ) + seq![image@, name@]);
                Some(
                    CommandLine {
                        program: "buildah".to_owned(),
                        arguments,
                        reading: Reading::Inherited,
                    },
                )
            },
            Action::ExportImage { name, archive } => {
                push_name(&mut arguments, "save");
                push_name(&mut arguments, "-o");
                push_name(&mut arguments, archive.as_str());
                push_name(&mut arguments, name.as_str());
                assert(arguments.deep_view() =~= seq!["save"@, "-o"@, archive@, name@]);
                Some(
                    CommandLine {
                        program: "podman".to_owned(),
                        arguments,
                        reading: Reading::Inherited,
                    },
                )
            },
            Action::RemoveTag { name } => {
                push_name(&mut arguments, "rmi");
                push_name(&mut arguments, name.as_str());
                assert(arguments.deep_view() =~= seq!["rmi"@, name@]);
                Some(
                    CommandLine {
                        program: "buildah".to_owned(),
                        arguments,
                        reading: Reading::Inherited,
                    },
                )
            },
            _ => None,
        }
    }
}

impl Correction {
    /// Returns the command line of the correction.
    pub fn command_line(&self) -> (line: CommandLine)
        ensures
            line@ == correction_line_of(self@),
    {
        let mut arguments: Vec<String> = Vec::new();
        push_name(&mut arguments, self.user.as_str());
        push_name(&mut arguments, self.path.as_str());
        assert(arguments.deep_view() =~= seq![self.user@, self.path@]);
        CommandLine { program: self.ownership.tool(), arguments, reading: Reading::Inherited }
    }
}

/// Only what is done outside the image has a command line: creating,
/// mounting, bootstrapping, committing, exporting and removing the tag.
pub proof fn lemma_processes_are_outside_the_image(action: ActionView)
    ensures
        command_line_of(action) is None <==> (action is Chroot || action.is_final()),
        command_line_of(action) matches Some(line) ==> (line.reading == Reading::Captured <==> (
        action is CreateImage || action is MountImage)),
{
}

} // verus!
