//! The body of a sync item on the wire.
use vstd::prelude::*;

use crate::proto::{command_objs_view, str_cmd_obj, StrCmdObjView};

verus! {

/// A list of commands.
#[derive(Debug, Clone, PartialEq, Eq)]
pub struct Entries {
    pub vec: Vec<str_cmd_obj>,
}

/// Stands for the absence of anything to bring over.
#[derive(Debug, Clone, Copy, PartialEq, Eq)]
pub struct Nothing {}

/// The kinds of body. A snapshot is carried as the number of its kind.
#[derive(Debug, Clone, PartialEq, Eq)]
pub enum Item {
    Entries(Entries),
    Snapshot(i32),
    Nothing(Nothing),
}

/// Model of an [`Item`].
pub enum ItemView {
    Entries(Seq<StrCmdObjView>),
    Snapshot(i32),
    Nothing,
}

impl View for Item {
    type V = ItemView;

    open spec fn view(&self) -> ItemView {
        match *self {
            Item::Entries(entries) => ItemView::Entries(command_objs_view(entries.vec@)),
            Item::Snapshot(ss) => ItemView::Snapshot(ss),
            Item::Nothing(_) => ItemView::Nothing,
        }
    }
}

/// The kinds of snapshot.
#[derive(Debug, Clone, Copy, PartialEq, Eq)]
pub enum Snapshot {
    Complete,
    Delta,
    phtm,
}

impl Snapshot {
    /// The number that stands for the kind on the wire.
    pub open spec fn code(self) -> i32 {
        match self {
            Snapshot::Complete => 0,
            Snapshot::Delta => 1,
            Snapshot::phtm => 2,
        }
    }

    /// Returns the number that stands for the kind on the wire.
    pub fn to_i32(self) -> (code: i32)
        ensures
            code == self.code(),
            code == 0 <==> self is Complete,
            code == 1 <==> self is Delta,
            code == 2 <==> self is phtm,
    {
        match self {
            Snapshot::Complete => 0,
            Snapshot::Delta => 1,
            Snapshot::phtm => 2,
        }
    }

    /// The kind that a number stands for, if there is one.
    pub open spec fn of_code(value: i32) -> Option<Snapshot> {
        match value {
            0 => Some(Snapshot::Complete),
            1 => Some(Snapshot::Delta),
            2 => Some(Snapshot::phtm),
            _ => None,
        }
    }

    /// Returns the kind that a number stands for, if there is one.
    pub fn from_i32(value: i32) -> (kind: Option<Snapshot>)
        ensures
            kind == Snapshot::of_code(value),
            kind is Some <==> 0 <= value <= 2,
            kind == Some(Snapshot::Complete) <==> value == 0,
            kind == Some(Snapshot::Delta) <==> value == 1,
            kind == Some(Snapshot::phtm) <==> value == 2,
            match kind {
                Some(kind) => kind.code() == value,
                None => forall|k: Snapshot| #[trigger] k.code() != value,
            },
    {
        match value {
            0 => Some(Snapshot::Complete),
            1 => Some(Snapshot::Delta),
            2 => Some(Snapshot::phtm),
            _ => None,
        }
    }
}

} // verus!
