//! The places that a tab can show.

use vstd::prelude::*;
use vstd::std_specs::cmp::PartialEqSpec;

verus! {

/// What the shell answered when it was asked for the display name of an item.
#[derive(Debug)]
pub enum ShellName {
    /// The lookup itself failed.
    Unavailable,
    /// The lookup succeeded and handed back a null string.
    Null,
    /// The buffer that the lookup filled: wide characters, the text ending at
    /// the first zero unit.
    Wide(Vec<u16>),
}

/// The mathematical value of a [`ShellName`].
pub enum ShellNameView {
    Unavailable,
    Null,
    Wide(Seq<u16>),
}

impl View for ShellName {
    type V = ShellNameView;

    open spec fn view(&self) -> ShellNameView {
        match self {
            ShellName::Unavailable => ShellNameView::Unavailable,
            ShellName::Null => ShellNameView::Null,
            ShellName::Wide(units) => ShellNameView::Wide(units@),
        }
    }
}

impl Clone for ShellName {
    fn clone(&self) -> (copy: Self)
        ensures
            copy@ == self@,
    {
        match self {
            ShellName::Unavailable => ShellName::Unavailable,
            ShellName::Null => ShellName::Null,
            ShellName::Wide(units) => ShellName::Wide(units.clone()),
        }
    }
}

/// An item identifier list: the host's name for a place that a tab can show.
///
/// It holds the bytes of the list, by which two places are told apart, and the
/// display name that the shell gave for it.
///
/// Two lists are the same place when their bytes are the same, and only
/// then. Whoever makes these values must therefore hand in one place always
/// under the same bytes: two lists that the shell would call equal and that
/// differ in a byte are two places here, and a report of the one while a tab
/// is at the other is taken into the history as a move.
#[derive(Debug)]
pub struct Idl {
    id: Vec<u8>,
    name: ShellName,
}

/// The mathematical value of an [`Idl`].
pub struct IdlView {
    pub id: Seq<u8>,
    pub name: ShellNameView,
}

impl View for Idl {
    type V = IdlView;

    closed spec fn view(&self) -> IdlView {
        IdlView { id: self.id@, name: self.name@ }
    }
}

impl DeepView for Idl {
    type V = IdlView;

    open spec fn deep_view(&self) -> IdlView {
        self@
    }
}

impl Idl {
    /// Takes over the bytes of an identifier list and the name found for it.
    pub fn new(id: Vec<u8>, name: ShellName) -> (idl: Idl)
        ensures
            idl@ == (IdlView { id: id@, name: name@ }),
    {
        Idl { id, name }
    }

    /// The bytes of the identifier list.
    pub fn get(&self) -> (id: &Vec<u8>)
        ensures
            id@ == self@.id,
    {
        &self.id
    }

    /// The display name that came with the list.
    pub fn name(&self) -> (name: &ShellName)
        ensures
            name@ == self@.name,
    {
        &self.name
    }
}

impl Clone for Idl {
    fn clone(&self) -> (copy: Self)
        ensures
            copy@ == self@,
    {
        Idl { id: self.id.clone(), name: self.name.clone() }
    }
}

impl PartialEq for Idl {
    /// Two lists are equal when their bytes are; the names play no part.
    fn eq(&self, other: &Self) -> (equal: bool) {
        let equal = self.id == other.id;
        proof {
            if self.id.eq_spec(&other.id) {
                assert(self.id@ =~= other.id@);
            }
        }
        equal
    }
}

impl vstd::std_specs::cmp::PartialEqSpecImpl for Idl {
    open spec fn obeys_eq_spec() -> bool {
        true
    }

    open spec fn eq_spec(&self, other: &Self) -> bool {
        self@.id == other@.id
    }
}

} // verus!
