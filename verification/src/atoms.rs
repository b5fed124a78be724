//! The atom table: the symbolic names that the selection owner works with,
//! and the atoms that the server has bound them to.

use crate::protocol::Atom;
use vstd::prelude::*;
use vstd::utf8::{encode_utf8, encode_utf8_decode_utf8};

verus! {

/// The symbolic names that the selection owner resolves, in the order in
/// which it resolves them.
#[derive(Clone, Copy, Debug, PartialEq, Eq, Hash, Structural)]
pub enum WellKnown {
    /// `CLIPBOARD`, the selection of explicit copy and paste.
    Clipboard,
    /// `PRIMARY`, the selection of the middle mouse button.
    Primary,
    /// `UTF8_STRING`, the target for UTF-8 text.
    Utf8String,
    /// `TARGETS`, the target that lists the supported targets.
    Targets,
    /// `MULTIPLE`, the target that asks for several conversions at once.
    Multiple,
    /// `text/plain;charset=utf-8`, the MIME name of UTF-8 text.
    TextPlainUtf8,
    /// `GTK_TEXT_BUFFER_CONTENTS`, the name that GTK text buffers ask for.
    GtkTextBufferContents,
}

/// How many names the table has room for.
pub const NAME_COUNT: usize = 7;

impl WellKnown {
    /// The place of the name in the order of resolution, from 0.
    pub open spec fn position(self) -> int {
        match self {
            WellKnown::Clipboard => 0,
            WellKnown::Primary => 1,
            WellKnown::Utf8String => 2,
            WellKnown::Targets => 3,
            WellKnown::Multiple => 4,
            WellKnown::TextPlainUtf8 => 5,
            WellKnown::GtkTextBufferContents => 6,
        }
    }

    /// The name at place `i`; the last name for any `i` past the end.
    pub open spec fn at(i: int) -> WellKnown {
        if i <= 0 {
            WellKnown::Clipboard
        } else if i == 1 {
            WellKnown::Primary
        } else if i == 2 {
            WellKnown::Utf8String
        } else if i == 3 {
            WellKnown::Targets
        } else if i == 4 {
            WellKnown::Multiple
        } else if i == 5 {
            WellKnown::TextPlainUtf8
        } else {
            WellKnown::GtkTextBufferContents
        }
    }

    /// The name that is resolved after this one, if any.
    pub open spec fn successor(self) -> Option<WellKnown> {
        if self.position() + 1 < NAME_COUNT {
            Some(WellKnown::at(self.position() + 1))
        } else {
            None
        }
    }

    /// The place of the name in the order of resolution.
    pub fn index(self) -> (i: usize)
        ensures
            i == self.position(),
            i < NAME_COUNT,
    {
        match self {
            WellKnown::Clipboard => 0,
            WellKnown::Primary => 1,
            WellKnown::Utf8String => 2,
            WellKnown::Targets => 3,
            WellKnown::Multiple => 4,
            WellKnown::TextPlainUtf8 => 5,
            WellKnown::GtkTextBufferContents => 6,
        }
    }

    /// The name at place `i`, or `None` past the last name.
    pub fn from_index(i: usize) -> (name: Option<WellKnown>)
        ensures
            name == (if i < NAME_COUNT {
                Some(WellKnown::at(i as int))
            } else {
                None
            }),
    {
        if i == 0 {
            Some(WellKnown::Clipboard)
        } else if i == 1 {
            Some(WellKnown::Primary)
        } else if i == 2 {
            Some(WellKnown::Utf8String)
        } else if i == 3 {
            Some(WellKnown::Targets)
        } else if i == 4 {
            Some(WellKnown::Multiple)
        } else if i == 5 {
            Some(WellKnown::TextPlainUtf8)
        } else if i == 6 {
            Some(WellKnown::GtkTextBufferContents)
        } else {
            None
        }
    }

    /// The name that is resolved after this one, or `None` after the last.
    pub fn next(self) -> (name: Option<WellKnown>)
        ensures
            name == self.successor(),
    {
        WellKnown::from_index(self.index() + 1)
    }

    /// The symbolic name as the server knows it.
    pub open spec fn symbol(self) -> Seq<char> {
        match self {
            WellKnown::Clipboard => "CLIPBOARD"@,
            WellKnown::Primary => "PRIMARY"@,
            WellKnown::Utf8String => "UTF8_STRING"@,
            WellKnown::Targets => "TARGETS"@,
            WellKnown::Multiple => "MULTIPLE"@,
            WellKnown::TextPlainUtf8 => "text/plain;charset=utf-8"@,
            WellKnown::GtkTextBufferContents => "GTK_TEXT_BUFFER_CONTENTS"@,
        }
    }

    /// The symbolic name as the server knows it.
    pub fn name(self) -> (name: &'static str)
        ensures
            name@ == self.symbol(),
    {
        match self {
            WellKnown::Clipboard => "CLIPBOARD",
            WellKnown::Primary => "PRIMARY",
            WellKnown::Utf8String => "UTF8_STRING",
            WellKnown::Targets => "TARGETS",
            WellKnown::Multiple => "MULTIPLE",
            WellKnown::TextPlainUtf8 => "text/plain;charset=utf-8",
            WellKnown::GtkTextBufferContents => "GTK_TEXT_BUFFER_CONTENTS",
        }
    }

    /// The name that is written `text`; `None` where `text` is none of the
    /// names.
    pub fn parse(text: &str) -> (found: Option<WellKnown>)
        ensures
            match found {
                Some(name) => text@ == name.symbol(),
                None => forall|name: WellKnown| text@ != name.symbol(),
            },
    {
        let mut i: usize = 0;
        while i < NAME_COUNT
            invariant
                i <= NAME_COUNT,
                forall|name: WellKnown| name.position() < i ==> text@ != #[trigger] name.symbol(),
            decreases NAME_COUNT - i,
        {
            match WellKnown::from_index(i) {
                Some(name) => {
                    if same_text(text, name.name()) {
                        return Some(name);
                    }
                },
                None => {},
            }
            i += 1;
        }
        None
    }

    /// Whether a request for this name asks for the text itself.
    pub open spec fn is_text(self) -> bool {
        self == WellKnown::Utf8String || self == WellKnown::TextPlainUtf8 || self
            == WellKnown::GtkTextBufferContents
    }
}

/// Whether two strings hold the same text.
fn same_text(a: &str, b: &str) -> (same: bool)
    ensures
        same == (a@ == b@),
{
    let x = a.as_bytes();
    let y = b.as_bytes();
    if x.len() != y.len() {
        return false;
    }
    let mut i: usize = 0;
    while i < x.len()
        invariant
            i <= x.len(),
            x@.len() == y@.len(),
            x@ == encode_utf8(a@),
            y@ == encode_utf8(b@),
            forall|j: int| 0 <= j < i ==> x@[j] == y@[j],
        decreases x.len() - i,
    {
        if x[i] != y[i] {
            return false;
        }
        i += 1;
    }
    proof {
        assert(x@ =~= y@);
        encode_utf8_decode_utf8(a@);
        encode_utf8_decode_utf8(b@);
    }
    true
}

/// No two names are written alike.
pub proof fn lemma_symbols_differ(a: WellKnown, b: WellKnown)
    requires
        a != b,
    ensures
        a.symbol() != b.symbol(),
{
    reveal_strlit("CLIPBOARD");
    reveal_strlit("PRIMARY");
    reveal_strlit("UTF8_STRING");
    reveal_strlit("TARGETS");
    reveal_strlit("MULTIPLE");
    reveal_strlit("text/plain;charset=utf-8");
    reveal_strlit("GTK_TEXT_BUFFER_CONTENTS");
    assert(a.symbol().len() != b.symbol().len() || a.symbol()[0] != b.symbol()[0]);
}

/// Names and places go together one to one: every name has a place among
/// the first [`NAME_COUNT`] and is the name at that place, and each of these
/// places is the place of the name at it.
pub proof fn lemma_positions(name: WellKnown, i: int)
    ensures
        0 <= name.position() < NAME_COUNT,
        WellKnown::at(name.position()) == name,
        0 <= i < NAME_COUNT ==> WellKnown::at(i).position() == i,
{
}

/// The table after `name` has been resolved with the server's answer
/// `interned`: a name that is bound already keeps its atom.
pub open spec fn resolved(table: Map<WellKnown, Atom>, name: WellKnown, interned: Atom) -> Map<
    WellKnown,
    Atom,
> {
    if table.dom().contains(name) {
        table
    } else {
        table.insert(name, interned)
    }
}

/// Whether every name is bound.
pub open spec fn complete(table: Map<WellKnown, Atom>) -> bool {
    forall|name: WellKnown| table.dom().contains(name)
}

/// The atoms of the first `n` names, in the order of resolution, unbound
/// names left out.
pub open spec fn listing_upto(table: Map<WellKnown, Atom>, n: int) -> Seq<Atom>
    decreases n,
{
    if n <= 0 {
        Seq::empty()
    } else {
        let name = WellKnown::at(n - 1);
        if table.dom().contains(name) {
            listing_upto(table, n - 1).push(table[name])
        } else {
            listing_upto(table, n - 1)
        }
    }
}

/// The atoms of all bound names, in the order of resolution.
pub open spec fn listing(table: Map<WellKnown, Atom>) -> Seq<Atom> {
    listing_upto(table, NAME_COUNT as int)
}

/// Whether `name` is the first name, in the order of resolution, that is
/// bound to `atom`.
pub open spec fn first_bound_to(table: Map<WellKnown, Atom>, atom: Atom, name: WellKnown) -> bool {
    &&& table.contains_pair(name, atom)
    &&& forall|earlier: WellKnown|
        earlier.position() < name.position() ==> !table.contains_pair(earlier, atom)
}

/// The first name, in the order of resolution, that is bound to `atom`;
/// `None` where no name is.
pub open spec fn name_of(table: Map<WellKnown, Atom>, atom: Atom) -> Option<WellKnown> {
    if table.contains_pair(WellKnown::Clipboard, atom) {
        Some(WellKnown::Clipboard)
    } else if table.contains_pair(WellKnown::Primary, atom) {
        Some(WellKnown::Primary)
    } else if table.contains_pair(WellKnown::Utf8String, atom) {
        Some(WellKnown::Utf8String)
    } else if table.contains_pair(WellKnown::Targets, atom) {
        Some(WellKnown::Targets)
    } else if table.contains_pair(WellKnown::Multiple, atom) {
        Some(WellKnown::Multiple)
    } else if table.contains_pair(WellKnown::TextPlainUtf8, atom) {
        Some(WellKnown::TextPlainUtf8)
    } else if table.contains_pair(WellKnown::GtkTextBufferContents, atom) {
        Some(WellKnown::GtkTextBufferContents)
    } else {
        None
    }
}

/// Whether `name` is the first name, in the order of resolution, that is
/// not bound.
pub open spec fn first_unbound_is(table: Map<WellKnown, Atom>, name: WellKnown) -> bool {
    &&& !table.dom().contains(name)
    &&& forall|earlier: WellKnown|
        earlier.position() < name.position() ==> table.dom().contains(earlier)
}

/// Resolving is memoized: a name that is resolved a second time keeps the
/// atom of the first time, whatever the server answers, and the table stays
/// as the first resolution left it.
pub proof fn lemma_resolve_is_memoized(
    table: Map<WellKnown, Atom>,
    name: WellKnown,
    first: Atom,
    second: Atom,
)
    ensures
        resolved(table, name, first).dom().contains(name),
        resolved(resolved(table, name, first), name, second) == resolved(table, name, first),
        resolved(resolved(table, name, first), name, second)[name] == resolved(
            table,
            name,
            first,
        )[name],
{
}

/// Resolving one name leaves every other name as it was.
pub proof fn lemma_resolve_keeps_others(
    table: Map<WellKnown, Atom>,
    name: WellKnown,
    interned: Atom,
    other: WellKnown,
)
    requires
        other != name,
    ensures
        resolved(table, name, interned).dom().contains(other) == table.dom().contains(other),
        resolved(table, name, interned)[other] == table[other],
{
}

/// The order in which two names are resolved does not matter.
pub proof fn lemma_resolve_commutes(
    table: Map<WellKnown, Atom>,
    a: WellKnown,
    x: Atom,
    b: WellKnown,
    y: Atom,
)
    requires
        a != b,
    ensures
        resolved(resolved(table, a, x), b, y) == resolved(resolved(table, b, y), a, x),
{
}

/// The atoms that the first `n` names are bound to.
pub open spec fn atoms_upto(table: Map<WellKnown, Atom>, n: int) -> Set<Atom> {
    Set::new(
        |atom: Atom|
            exists|name: WellKnown|
                name.position() < n && #[trigger] table.contains_pair(name, atom),
    )
}

/// The first `n` entries of the listing are the atoms that the first `n`
/// names are bound to.
pub proof fn lemma_listing_upto(table: Map<WellKnown, Atom>, n: int)
    requires
        0 <= n <= NAME_COUNT,
    ensures
        listing_upto(table, n).len() <= n,
        listing_upto(table, n).to_set() == atoms_upto(table, n),
    decreases n,
{
    if n > 0 {
        lemma_listing_upto(table, n - 1);
        let name = WellKnown::at(n - 1);
        if table.dom().contains(name) {
            listing_upto(table, n - 1).lemma_push_to_set_commute(table[name]);
            assert(table.contains_pair(name, table[name]));
        }
        assert forall|atom: Atom| atoms_upto(table, n).contains(atom) implies atoms_upto(
            table,
            n - 1,
        ).contains(atom) || table.contains_pair(name, atom) by {
            let found = choose|found: WellKnown|
                found.position() < n && #[trigger] table.contains_pair(found, atom);
            assert(found == name || found.position() < n - 1);
        }
    }
}

/// The listing holds exactly the atoms that names are bound to: each of
/// them, and no other.
pub proof fn lemma_listing_is_all(table: Map<WellKnown, Atom>)
    ensures
        listing(table).to_set() == table.values(),
        listing(table).len() <= NAME_COUNT,
{
    lemma_listing_upto(table, NAME_COUNT as int);
    assert forall|atom: Atom| table.values().contains(atom) implies atoms_upto(
        table,
        NAME_COUNT as int,
    ).contains(atom) by {
        let name = choose|name: WellKnown| #[trigger]
            table.dom().contains(name) && table[name] == atom;
        assert(name.position() < NAME_COUNT && table.contains_pair(name, atom));
    }
}

/// Where every name is bound, the listing has one entry for each name, in
/// the order of resolution.
pub proof fn lemma_listing_of_complete(table: Map<WellKnown, Atom>)
    requires
        complete(table),
    ensures
        listing(table) == Seq::new(NAME_COUNT as nat, |i: int| table[WellKnown::at(i)]),
{
    reveal_with_fuel(listing_upto, 8);
}

/// What [`name_of`] finds is the first name bound to the atom, and it finds
/// none only where no name is bound to it.
pub proof fn lemma_name_of(table: Map<WellKnown, Atom>, atom: Atom)
    ensures
        match name_of(table, atom) {
            Some(name) => first_bound_to(table, atom, name),
            None => !table.values().contains(atom),
        },
{
}

/// The atoms that the symbolic names have been resolved to.
#[derive(Debug)]
pub struct AtomTable {
    slots: [Option<Atom>; NAME_COUNT],
}

impl View for AtomTable {
    type V = Map<WellKnown, Atom>;

    closed spec fn view(&self) -> Map<WellKnown, Atom> {
        Map::new(
            |name: WellKnown| self.slots@[name.position()] is Some,
            |name: WellKnown| self.slots@[name.position()]->0,
        )
    }
}

impl AtomTable {
    /// A table in which no name is bound.
    pub fn new() -> (table: AtomTable)
        ensures
            table@ == Map::<WellKnown, Atom>::empty(),
    {
        let table = AtomTable { slots: [None, None, None, None, None, None, None] };
        table
    }

    /// The atom that `name` is bound to, if it is bound.
    pub fn lookup(&self, name: WellKnown) -> (atom: Option<Atom>)
        ensures
            atom == (if self@.dom().contains(name) {
                Some(self@[name])
            } else {
                None
            }),
    {
        self.slots[name.index()]
    }

    /// The atom that the name written `text` is bound to; `None` where
    /// `text` is none of the names or the name is not bound.
    pub fn lookup_name(&self, text: &str) -> (atom: Option<Atom>)
        ensures
            match atom {
                Some(bound) => exists|name: WellKnown|
                    text@ == name.symbol() && #[trigger] self@.contains_pair(name, bound),
                None => forall|name: WellKnown|
                    text@ == name.symbol() ==> !#[trigger] self@.dom().contains(name),
            },
    {
        match WellKnown::parse(text) {
            Some(name) => {
                let atom = self.lookup(name);
                proof {
                    assert forall|other: WellKnown| text@ == other.symbol() implies other
                        == name by {
                        if other != name {
                            lemma_symbols_differ(other, name);
                        }
                    }
                    if atom is Some {
                        assert(self@.contains_pair(name, atom->0));
                    }
                }
                atom
            },
            None => None,
        }
    }

    /// Resolves `name`. `interned` is the atom that the server gave for it;
    /// it is kept unless the name is bound already. Returns the atom that the
    /// name is bound to from now on.
    pub fn resolve(&mut self, name: WellKnown, interned: Atom) -> (atom: Atom)
        ensures
            final(self)@ == resolved(old(self)@, name, interned),
            final(self)@.dom().contains(name),
            atom == final(self)@[name],
    {
        let i = name.index();
        match self.slots[i] {
            Some(bound) => bound,
            None => {
                self.slots[i] = Some(interned);
                interned
            },
        }
    }

    /// The first name, in the order of resolution, that is not bound;
    /// `None` where every name is.
    pub fn first_unbound(&self) -> (name: Option<WellKnown>)
        ensures
            match name {
                Some(missing) => first_unbound_is(self@, missing),
                None => complete(self@),
            },
    {
        let mut i: usize = 0;
        while i < NAME_COUNT
            invariant
                i <= NAME_COUNT,
                forall|name: WellKnown| name.position() < i ==> self@.dom().contains(name),
            decreases NAME_COUNT - i,
        {
            if self.slots[i].is_none() {
                let missing = WellKnown::from_index(i);
                return missing;
            }
            i += 1;
        }
        None
    }

    /// Whether every name is bound.
    pub fn is_complete(&self) -> (all: bool)
        ensures
            all == complete(self@),
    {
        self.first_unbound().is_none()
    }

    /// The atoms of all bound names, in the order of resolution.
    pub fn all(&self) -> (atoms: Vec<Atom>)
        ensures
            atoms@ == listing(self@),
    {
        let mut atoms: Vec<Atom> = Vec::new();
        let mut i: usize = 0;
        while i < NAME_COUNT
            invariant
                i <= NAME_COUNT,
                atoms@ == listing_upto(self@, i as int),
            decreases NAME_COUNT - i,
        {
            match self.slots[i] {
                Some(atom) => {
                    atoms.push(atom);
                },
                None => {},
            }
            i += 1;
        }
        atoms
    }

    /// The first name, in the order of resolution, that is bound to `atom`;
    /// `None` where no name is.
    pub fn name_of(&self, atom: Atom) -> (name: Option<WellKnown>)
        ensures
            name == name_of(self@, atom),
    {
        let mut i: usize = 0;
        while i < NAME_COUNT
            invariant
                i <= NAME_COUNT,
                forall|name: WellKnown|
                    #![trigger self@.dom().contains(name)]
                    name.position() < i ==> !self@.contains_pair(name, atom),
            decreases NAME_COUNT - i,
        {
            if self.slots[i] == Some(atom) {
                let found = WellKnown::from_index(i);
                return found;
            }
            i += 1;
        }
        None
    }
}

} // verus!
