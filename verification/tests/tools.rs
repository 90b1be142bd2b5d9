use pop_container_builder::action::{Action, ChrootCommand};
use pop_container_builder::error::{ErrorKind, PipelineError};
use pop_container_builder::handoff::{corrections, Correction, Ownership};
use pop_container_builder::stage::Stage;
use pop_container_builder::tool::{CommandLine, Reading};

fn line(program: &str, arguments: &[&str], reading: Reading) -> CommandLine {
    CommandLine {
        program: program.to_string(),
        arguments: arguments.iter().map(|argument| argument.to_string()).collect(),
        reading,
    }
}

#[test]
fn container_is_created_from_scratch() {
    assert_eq!(
        Action::CreateImage.command_line(),
        Some(line("buildah", &["from", "scratch"], Reading::Captured))
    );
}

#[test]
fn container_is_mounted_by_name() {
    assert_eq!(
        Action::MountImage { image: "working-container".to_string() }.command_line(),
        Some(line("buildah", &["mount", "working-container"], Reading::Captured))
    );
}

#[test]
fn base_system_is_unpacked_by_debootstrap() {
    let action = Action::Bootstrap {
        mount: "/mnt/image".to_string(),
        codename: "jammy".to_string(),
        mirror: "http://archive.ubuntu.com/ubuntu/".to_string(),
        variant: "minbase".to_string(),
    };
    assert_eq!(
        action.command_line(),
        Some(line(
            "debootstrap",
            &["--variant=minbase", "jammy", "/mnt/image", "http://archive.ubuntu.com/ubuntu/"],
            Reading::Streamed
        ))
    );
}

#[test]
fn commit_carries_its_options() {
    let commit = |squash, remove_working| {
        Action::CommitImage {
            image: "working-container".to_string(),
            name: "pop-container-runtime".to_string(),
            squash,
            remove_working,
        }
        .command_line()
    };
    let tail = ["working-container", "pop-container-runtime"];
    assert_eq!(
        commit(true, true),
        Some(line(
            "buildah",
            &["commit", "--squash", "--rm", tail[0], tail[1]],
            Reading::Inherited
        ))
    );
    assert_eq!(
        commit(true, false),
        Some(line("buildah", &["commit", "--squash", tail[0], tail[1]], Reading::Inherited))
    );
    assert_eq!(
        commit(false, true),
        Some(line("buildah", &["commit", "--rm", tail[0], tail[1]], Reading::Inherited))
    );
    assert_eq!(
        commit(false, false),
        Some(line("buildah", &["commit", tail[0], tail[1]], Reading::Inherited))
    );
}

#[test]
fn image_is_saved_by_podman() {
    let action = Action::ExportImage {
        name: "pop-container-runtime".to_string(),
        archive: "pop-container-runtime.tar".to_string(),
    };
    assert_eq!(
        action.command_line(),
        Some(line(
            "podman",
            &["save", "-o", "pop-container-runtime.tar", "pop-container-runtime"],
            Reading::Inherited
        ))
    );
}

#[test]
fn tag_is_removed_by_buildah() {
    assert_eq!(
        Action::RemoveTag { name: "pop-container-runtime".to_string() }.command_line(),
        Some(line("buildah", &["rmi", "pop-container-runtime"], Reading::Inherited))
    );
}

#[test]
fn work_inside_the_image_has_no_command_line() {
    let action = Action::Chroot {
        mount: "/mnt/image".to_string(),
        command: ChrootCommand::UpdateIndex,
    };
    assert_eq!(action.command_line(), None);
}

#[test]
fn final_actions_have_no_command_line() {
    assert_eq!(Action::Finish { archive: "a.tar".to_string() }.command_line(), None);
    let error =
        PipelineError { stage: Stage::Export, kind: ErrorKind::Io, detail: String::new() };
    assert_eq!(Action::Abort { error }.command_line(), None);
}

#[test]
fn corrections_name_user_and_file() {
    let owner = Correction {
        ownership: Ownership::Owner,
        user: "alice".to_string(),
        path: "pop-container-runtime.tar".to_string(),
    };
    assert_eq!(
        owner.command_line(),
        line("chown", &["alice", "pop-container-runtime.tar"], Reading::Inherited)
    );
    let lines: Vec<CommandLine> =
        corrections(&Some("bob".to_string()), "pop-container-interactive.tar")
            .iter()
            .map(|correction| correction.command_line())
            .collect();
    assert_eq!(
        lines,
        vec![
            line("chown", &["bob", "pop-container-interactive.tar"], Reading::Inherited),
            line("chgrp", &["bob", "pop-container-interactive.tar"], Reading::Inherited),
        ]
    );
}
