//! Who gets the finished archive.
//!
//! A build runs with raised privileges, so the archive it leaves behind
//! would belong to the administrator. The name of the user who started the
//! build is therefore looked up first. If the program already runs as the
//! administrator, because it has raised its privileges and started over,
//! the name is taken from what an earlier start has put aside.

use vstd::prelude::*;

verus! {

/// The administrator's name. It also stands in where no name can be found.
pub const PLACEHOLDER: &'static str = "root";

/// The file in which the user's name is put aside for the start with raised
/// privileges.
pub const CACHE_PATH: &'static str = "/tmp/pop-container-name";

/// What the users database says about the user running the process.
#[derive(Debug, PartialEq, Eq)]
pub enum Lookup {
    /// It knows no such user.
    Missing,
    /// It knows the user under `name`.
    Named { name: String },
    /// It knows the user under a name that is not valid Unicode.
    Unreadable,
}

/// What a [`Lookup`] holds, with the name as a plain sequence.
pub enum LookupView {
    Missing,
    Named { name: Seq<char> },
    Unreadable,
}

impl View for Lookup {
    type V = LookupView;

    open spec fn view(&self) -> LookupView {
        match self {
            Lookup::Missing => LookupView::Missing,
            Lookup::Named { name } => LookupView::Named { name: name@ },
            Lookup::Unreadable => LookupView::Unreadable,
        }
    }
}

/// What is known about the invoking user after the lookup.
#[derive(Debug, PartialEq, Eq)]
pub enum Identity {
    /// The user's name. It is to be put aside for a later start exactly if
    /// `remember`.
    Known { name: String, remember: bool },
    /// The program runs as the administrator: the invoking user's name is
    /// whatever was put aside.
    Escalated,
}

/// What an [`Identity`] holds, with the name as a plain sequence.
pub enum IdentityView {
    Known { name: Seq<char>, remember: bool },
    Escalated,
}

impl View for Identity {
    type V = IdentityView;

    open spec fn view(&self) -> IdentityView {
        match self {
            Identity::Known { name, remember } => IdentityView::Known {
                name: name@,
                remember: *remember,
            },
            Identity::Escalated => IdentityView::Escalated,
        }
    }
}

/// What a lookup tells about the invoking user.
///
/// An ordinary user is known by name, and the name is put aside. A name
/// that cannot be read is replaced by the placeholder, which is put aside
/// in its place. The administrator's own name says that the privileges are
/// already raised. Where the database knows no user, the placeholder
/// stands in and nothing is put aside.
pub open spec fn identity_of(lookup: LookupView) -> IdentityView {
    match lookup {
        LookupView::Missing => IdentityView::Known { name: PLACEHOLDER@, remember: false },
        LookupView::Named { name } => if name == PLACEHOLDER@ {
            IdentityView::Escalated
        } else {
            IdentityView::Known { name, remember: true }
        },
        LookupView::Unreadable => IdentityView::Known { name: PLACEHOLDER@, remember: true },
    }
}

/// The name that is used after a start with raised privileges: what was
/// put aside, or the placeholder if nothing can be read back.
pub open spec fn recalled(cached: Option<Seq<char>>) -> Seq<char> {
    match cached {
        Some(name) => name,
        None => PLACEHOLDER@,
    }
}

/// Asks the users database for the name of the user running the process,
/// by `users::get_current_username`. The answer depends on the machine and
/// on the moment, so nothing is promised about it.
#[verifier::external_body]
fn current_user() -> Lookup {
    match users::get_current_username() {
        None => Lookup::Missing,
        Some(name) => match name.into_string() {
            Ok(name) => Lookup::Named { name },
            Err(_) => Lookup::Unreadable,
        },
    }
}

/// Decides what a lookup tells about the invoking user.
pub fn classify(lookup: Lookup) -> (identity: Identity)
    ensures
        identity@ == identity_of(lookup@),
{
    match lookup {
        Lookup::Missing => Identity::Known { name: PLACEHOLDER.to_owned(), remember: false },
        Lookup::Named { name } => {
            if name == PLACEHOLDER.to_owned() {
                Identity::Escalated
            } else {
                Identity::Known { name, remember: true }
            }
        },
        Lookup::Unreadable => Identity::Known { name: PLACEHOLDER.to_owned(), remember: true },
    }
}

/// Looks up the user running the process and decides what that tells about
/// the invoking user. Whatever the database answers, the result is what
/// [`identity_of`] makes of that answer.
pub fn identify() -> (identity: Identity)
    ensures
        exists|lookup: LookupView| identity@ == #[trigger] identity_of(lookup),
{
    let lookup = current_user();
    let identity = classify(lookup);
    identity
}

/// Returns the name to use after a start with raised privileges: `cached`
/// is what could be read back of the name put aside, and the placeholder
/// stands in where nothing could.
pub fn recall(cached: Option<String>) -> (name: String)
    ensures
        name@ == recalled(
            match cached {
                Some(text) => Some(text@),
                None => None,
            },
        ),
{
    match cached {
        Some(name) => name,
        None => PLACEHOLDER.to_owned(),
    }
}

/// A start with raised privileges is told by the administrator's name and
/// by nothing else. In every other case a name is known: the user's own
/// where the database gave one, and it is put aside exactly where the
/// database knew the user at all.
pub proof fn lemma_escalation_is_told_by_name(lookup: LookupView)
    ensures
        identity_of(lookup) is Escalated <==> lookup == (LookupView::Named { name: PLACEHOLDER@ }),
        identity_of(lookup) matches IdentityView::Known { name, remember } ==> {
            &&& remember <==> lookup !is Missing
            &&& lookup matches LookupView::Named { name: found } ==> name == found
        },
{
}

} // verus!
