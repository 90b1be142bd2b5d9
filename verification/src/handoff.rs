//! Handing the finished archive over to the invoking user.
//!
//! The corrections are made after the build has succeeded. They are made as
//! well as they can be: a correction that fails leaves the build a success.

use vstd::prelude::*;

verus! {

/// Which side of a file's ownership to correct.
#[derive(Clone, Copy, Debug, PartialEq, Eq, Structural)]
pub enum Ownership {
    /// The owning user, set by `chown`.
    Owner,
    /// The owning group, set by `chgrp`.
    Group,
}

impl Ownership {
    /// The tool that makes the correction.
    pub open spec fn tool_label(self) -> Seq<char> {
        match self {
            Ownership::Owner => "chown"@,
            Ownership::Group => "chgrp"@,
        }
    }

    /// Returns the name of the tool that makes the correction.
    pub fn tool(&self) -> (text: String)
        ensures
            text@ == self.tool_label(),
    {
        match self {
            Ownership::Owner => "chown".to_owned(),
            Ownership::Group => "chgrp".to_owned(),
        }
    }
}

/// One correction of the archive's ownership.
#[derive(Debug, PartialEq, Eq)]
pub struct Correction {
    pub ownership: Ownership,
    pub user: String,
    pub path: String,
}

/// What a [`Correction`] holds, as plain sequences.
pub struct CorrectionView {
    pub ownership: Ownership,
    pub user: Seq<char>,
    pub path: Seq<char>,
}

impl View for Correction {
    type V = CorrectionView;

    open spec fn view(&self) -> CorrectionView {
        CorrectionView { ownership: self.ownership, user: self.user@, path: self.path@ }
    }
}

impl DeepView for Correction {
    type V = CorrectionView;

    open spec fn deep_view(&self) -> CorrectionView {
        self.view()
    }
}

/// The corrections that hand `archive` over to `user`: first its owner,
/// second its group. None where no user is known.
pub open spec fn handoff(user: Option<Seq<char>>, archive: Seq<char>) -> Seq<CorrectionView> {
    match user {
        Some(name) => seq![
            CorrectionView { ownership: Ownership::Owner, user: name, path: archive },
            CorrectionView { ownership: Ownership::Group, user: name, path: archive },
        ],
        None => Seq::empty(),
    }
}

/// Returns the corrections that hand `archive` over to `user`, in the
/// order in which they are to be made.
pub fn corrections(user: &Option<String>, archive: &str) -> (list: Vec<Correction>)
    ensures
        list.deep_view() == handoff(
            match user {
                Some(name) => Some(name@),
                None => None,
            },
            archive@,
        ),
{
    let mut list: Vec<Correction> = Vec::new();
    match user {
        Some(name) => {
            list.push(
                Correction {
                    ownership: Ownership::Owner,
                    user: name.clone(),
                    path: archive.to_owned(),
                },
            );
            list.push(
                Correction {
                    ownership: Ownership::Group,
                    user: name.clone(),
                    path: archive.to_owned(),
                },
            );
        },
        None => {
        },
    }
    list
}

} // verus!
