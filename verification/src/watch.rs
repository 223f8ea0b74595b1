//! The module directory convention: what a change in the watched directory
//! asks of the registry.

use vstd::prelude::*;
use crate::loader::{is_hidden, path_file_name, spec_is_hidden};

verus! {

/// The kinds of change the convention tells apart.
#[derive(Clone, Copy, Debug, PartialEq, Eq, Structural)]
pub enum WatchKind {
    /// A file was created. One path.
    Created,
    /// The contents of a file changed. One path.
    Modified,
    /// A file was renamed. Two paths: the old one, then the new one.
    Renamed,
    /// A file was removed. One path.
    Removed,
    /// Anything else.
    Other,
}

/// What the registry is asked to do.
#[derive(Debug, PartialEq, Eq)]
pub enum Directive {
    Nothing,
    /// Load the module at this path.
    Load(String),
    /// Unload the module at this path.
    Unload(String),
    /// Unload the module at this path, then load it anew.
    Reload(String),
}

/// A [`Directive`] with its path as a sequence of characters.
pub enum DirectiveView {
    Nothing,
    Load(Seq<char>),
    Unload(Seq<char>),
    Reload(Seq<char>),
}

impl View for Directive {
    type V = DirectiveView;

    open spec fn view(&self) -> DirectiveView {
        match self {
            Directive::Nothing => DirectiveView::Nothing,
            Directive::Load(path) => DirectiveView::Load(path@),
            Directive::Unload(path) => DirectiveView::Unload(path@),
            Directive::Reload(path) => DirectiveView::Reload(path@),
        }
    }
}

/// The view of an optional directive.
pub open spec fn directive_view(directive: Option<Directive>) -> Option<DirectiveView> {
    match directive {
        Some(d) => Some(d@),
        None => None,
    }
}

/// The rule for a rename from `from` to `to`, whose file names are
/// `from_name` and `to_name`. A file that leaves hiding is loaded under its
/// new path, one that goes into hiding is unloaded under its old path, and
/// nothing else changes the registry. Without both file names there is no
/// answer.
pub open spec fn spec_rename(
    from: Seq<char>,
    to: Seq<char>,
    from_name: Option<Seq<char>>,
    to_name: Option<Seq<char>>,
) -> Option<DirectiveView> {
    match (from_name, to_name) {
        (Some(old_name), Some(new_name)) => {
            let was_hidden = spec_is_hidden(old_name);
            let now_hidden = spec_is_hidden(new_name);
            if was_hidden && !now_hidden {
                Some(DirectiveView::Load(to))
            } else if !was_hidden && now_hidden {
                Some(DirectiveView::Unload(from))
            } else {
                Some(DirectiveView::Nothing)
            }
        },
        _ => None,
    }
}

/// The convention as a whole. There is no answer for an event that lacks the
/// paths its kind comes with.
pub open spec fn spec_directive(kind: WatchKind, paths: Seq<Seq<char>>) -> Option<DirectiveView> {
    match kind {
        WatchKind::Other => Some(DirectiveView::Nothing),
        WatchKind::Created => if paths.len() >= 1 {
            Some(DirectiveView::Load(paths[0]))
        } else {
            None
        },
        WatchKind::Modified => if paths.len() >= 1 {
            Some(DirectiveView::Reload(paths[0]))
        } else {
            None
        },
        WatchKind::Removed => if paths.len() >= 1 {
            Some(DirectiveView::Unload(paths[0]))
        } else {
            None
        },
        WatchKind::Renamed => if paths.len() >= 2 {
            spec_rename(paths[0], paths[1], path_file_name(paths[0]), path_file_name(paths[1]))
        } else {
            None
        },
    }
}

/// Decides on a rename whose two file names are already known.
pub fn rename_directive(
    from: &String,
    to: &String,
    from_name: Option<&String>,
    to_name: Option<&String>,
) -> (r: Option<Directive>)
    ensures
        directive_view(r) == spec_rename(
            from@,
            to@,
            match from_name {
                Some(n) => Some(n@),
                None => None,
            },
            match to_name {
                Some(n) => Some(n@),
                None => None,
            },
        ),
{
    match (from_name, to_name) {
        (Some(old_name), Some(new_name)) => {
            let was_hidden = is_hidden(old_name);
            let now_hidden = is_hidden(new_name);
            if was_hidden && !now_hidden {
                Some(Directive::Load(to.clone()))
            } else if !was_hidden && now_hidden {
                Some(Directive::Unload(from.clone()))
            } else {
                Some(Directive::Nothing)
            }
        },
        _ => None,
    }
}

/// Says what a change of the given kind, reported with the given paths, asks
/// of the registry. The answer is `None` exactly where the event lacks a path
/// its kind comes with, or a renamed path has no file name.
pub fn directive_for(kind: WatchKind, paths: &Vec<String>) -> (r: Option<Directive>)
    ensures
        directive_view(r) == spec_directive(kind, paths.deep_view()),
{
    match kind {
        WatchKind::Other => Some(Directive::Nothing),
        WatchKind::Created => if paths.len() >= 1 {
            Some(Directive::Load(paths[0].clone()))
        } else {
            None
        },
        WatchKind::Modified => if paths.len() >= 1 {
            Some(Directive::Reload(paths[0].clone()))
        } else {
            None
        },
        WatchKind::Removed => if paths.len() >= 1 {
            Some(Directive::Unload(paths[0].clone()))
        } else {
            None
        },
        WatchKind::Renamed => if paths.len() >= 2 {
            let from_name = crate::loader::file_name(&paths[0]);
            let to_name = crate::loader::file_name(&paths[1]);
            rename_directive(&paths[0], &paths[1], from_name.as_ref(), to_name.as_ref())
        } else {
            None
        },
    }
}

} // verus!
