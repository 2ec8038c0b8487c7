//! What a play command asks for, read from the command's arguments.
//!
//! The arguments come as the framework's `Args`, which has split the text of
//! the command and hands the pieces out one by one. That type is not verified
//! here: what this module relies on is stated at `take_argument` and
//! `whole_text` and taken on trust.

use crate::text::{is_link, names_link};
use serenity::framework::standard::Args;
use vstd::prelude::*;

verus! {

/// `serenity::framework::standard::Args`, the arguments of a command. Nothing
/// is known of what is inside: its content is spoken of through
/// [`pending_arguments`] and [`source_text`] only.
#[verifier::external_type_specification]
#[verifier::external_body]
pub struct ExArgs(Args);

/// The arguments that `args` has not handed out yet, in order, each as
/// `Args::current` gives it when its turn comes. With none left,
/// `Args::is_empty` holds.
pub uninterp spec fn pending_arguments(args: Args) -> Seq<Seq<char>>;

/// The whole text that `args` was made from, as `Args::message` gives it.
pub uninterp spec fn source_text(args: Args) -> Seq<char>;

/// `Args::single::<String>`: hands out the current argument as a string and
/// moves on to the next one. With no argument left it fails with its
/// end-of-string error, here `None`, and leaves `args` as it was. Parsing an
/// argument as a `String` cannot fail. The text `args` was made from never
/// changes.
#[verifier::external_body]
fn take_argument(args: &mut Args) -> (r: Option<String>)
    ensures
        source_text(*final(args)) == source_text(*old(args)),
        match r {
            Some(argument) => {
                &&& pending_arguments(*old(args)).len() > 0
                &&& argument@ == pending_arguments(*old(args))[0]
                &&& pending_arguments(*final(args)) == pending_arguments(*old(args)).drop_first()
            },
            None => {
                &&& pending_arguments(*old(args)).len() == 0
                &&& pending_arguments(*final(args)) == pending_arguments(*old(args))
            },
        },
{
    args.single::<String>().ok()
}

/// `Args::message`: the whole text that `args` was made from.
#[verifier::external_body]
fn whole_text<'a>(args: &'a Args) -> (r: &'a str)
    ensures
        r@ == source_text(*args),
{
    args.message()
}

/// What to play.
#[derive(Clone, Debug, PartialEq, Eq)]
pub enum PlayTarget {
    /// The audio behind this link.
    Link(String),
    /// The first hit of a search for this query.
    Search(String),
}

/// The mathematical content of a [`PlayTarget`].
pub enum PlayTargetView {
    Link(Seq<char>),
    Search(Seq<char>),
}

impl View for PlayTarget {
    type V = PlayTargetView;

    open spec fn view(&self) -> PlayTargetView {
        match self {
            PlayTarget::Link(url) => PlayTargetView::Link(url@),
            PlayTarget::Search(query) => PlayTargetView::Search(query@),
        }
    }
}

/// The target of a command whose first argument is `first` and whose whole
/// text is `text`: a first argument that names a link is the target;
/// otherwise the whole text is a search query.
pub open spec fn target_of(first: Seq<char>, text: Seq<char>) -> PlayTargetView {
    if names_link(first) {
        PlayTargetView::Link(first)
    } else {
        PlayTargetView::Search(text)
    }
}

/// The target that a command's arguments ask for, if there is any argument.
pub open spec fn requested_target(arguments: Seq<Seq<char>>, text: Seq<char>) -> Option<
    PlayTargetView,
> {
    if arguments.len() == 0 {
        None
    } else {
        Some(target_of(arguments[0], text))
    }
}

impl PlayTarget {
    /// Selects the target of a command from its first argument and its whole
    /// text.
    pub fn select(first: String, text: &str) -> (r: PlayTarget)
        ensures
            r@ == target_of(first@, text@),
    {
        if is_link(first.as_str()) {
            PlayTarget::Link(first)
        } else {
            PlayTarget::Search(text.to_owned())
        }
    }
}

/// Reads the target of a play command from its arguments: `None` when the
/// command came without any.
pub fn play_target(args: Args) -> (r: Option<PlayTarget>)
    ensures
        match r {
            Some(target) => requested_target(pending_arguments(args), source_text(args))
                == Some(target@),
            None => requested_target(pending_arguments(args), source_text(args)) is None,
        },
{
    let mut args = args;
    match take_argument(&mut args) {
        Some(first) => Some(PlayTarget::select(first, whole_text(&args))),
        None => None,
    }
}

} // verus!
