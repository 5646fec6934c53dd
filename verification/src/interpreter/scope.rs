//! The variables that are visible at a point of a running script.

use vstd::prelude::*;

use crate::interpreter::value::{Value, ValueView};
use crate::strings::text_equal;

verus! {

/// The index of the first entry at or after `from` that binds `name`.
pub open spec fn position_of(entries: Seq<(String, Value)>, name: Seq<char>, from: int) -> Option<int>
    decreases entries.len() - from,
{
    if from < 0 || from >= entries.len() {
        None
    } else if entries[from].0@ == name {
        Some(from)
    } else {
        position_of(entries, name, from + 1)
    }
}

/// The names that `entries` bind, each with its value: of two entries for one
/// name the first counts.
pub open spec fn bindings(entries: Seq<(String, Value)>) -> Map<Seq<char>, ValueView> {
    Map::new(
        |name: Seq<char>| position_of(entries, name, 0) is Some,
        |name: Seq<char>| entries[position_of(entries, name, 0).unwrap()].1@,
    )
}

/// The value of `name` in `frames`, the innermost first: that of the first
/// frame that binds it, and `Null` where none does.
pub open spec fn found(frames: Seq<Map<Seq<char>, ValueView>>, name: Seq<char>) -> ValueView
    decreases frames.len(),
{
    if frames.len() == 0 {
        ValueView::Null
    } else if frames[0].contains_key(name) {
        frames[0][name]
    } else {
        found(frames.skip(1), name)
    }
}

/// A position that is found binds the name, and no entry between `from` and
/// it does; where none is found, no entry from `from` on binds the name.
proof fn lemma_position_of(entries: Seq<(String, Value)>, name: Seq<char>, from: int)
    requires
        0 <= from,
    ensures
        match position_of(entries, name, from) {
            Some(position) => {
                &&& from <= position < entries.len()
                &&& entries[position].0@ == name
                &&& forall|index: int| from <= index < position ==> entries[index].0@ != name
            },
            None => forall|index: int| from <= index < entries.len() ==> entries[index].0@ != name,
        },
    decreases entries.len() - from,
{
    if from < entries.len() && entries[from].0@ != name {
        lemma_position_of(entries, name, from + 1);
    }
}

/// The first entry from `from` on that binds the name is at `position`.
proof fn lemma_position_is(
    entries: Seq<(String, Value)>,
    name: Seq<char>,
    from: int,
    position: int,
)
    requires
        0 <= from <= position < entries.len(),
        entries[position].0@ == name,
        forall|index: int| from <= index < position ==> entries[index].0@ != name,
    ensures
        position_of(entries, name, from) == Some(position),
    decreases position - from,
{
    if from < position {
        lemma_position_is(entries, name, from + 1, position);
    }
}

/// No entry from `from` on binds the name.
proof fn lemma_position_none(entries: Seq<(String, Value)>, name: Seq<char>, from: int)
    requires
        0 <= from,
        forall|index: int| from <= index < entries.len() ==> entries[index].0@ != name,
    ensures
        position_of(entries, name, from) is None,
    decreases entries.len() - from,
{
    if from < entries.len() {
        lemma_position_none(entries, name, from + 1);
    }
}

/// Giving the first entry for a name another value, or adding an entry for a
/// name that has none, binds that name to the value and leaves every other
/// name as it was.
proof fn lemma_bindings_set(
    before: Seq<(String, Value)>,
    after: Seq<(String, Value)>,
    name: Seq<char>,
    value: Value,
)
    requires
        match position_of(before, name, 0) {
            Some(position) => after.len() == before.len() && after[position].0@ == name
                && after[position].1 == value && forall|index: int|
                0 <= index < before.len() && index != position ==> after[index] == before[index],
            None => after.len() == before.len() + 1 && after[before.len() as int].0@ == name
                && after[before.len() as int].1 == value && forall|index: int|
                0 <= index < before.len() ==> after[index] == before[index],
        },
    ensures
        bindings(after) == bindings(before).insert(name, value@),
{
    lemma_position_of(before, name, 0);
    let expected = bindings(before).insert(name, value@);
    assert forall|other: Seq<char>| #[trigger]
        bindings(after).dom().contains(other) == expected.dom().contains(other) && (bindings(
            after,
        ).dom().contains(other) ==> bindings(after)[other] == expected[other]) by {
        lemma_position_of(before, other, 0);
        match position_of(before, other, 0) {
            Some(position) => {
                lemma_position_is(after, other, 0, position);
            },
            None => {
                if other == name {
                    lemma_position_is(after, other, 0, before.len() as int);
                } else {
                    lemma_position_none(after, other, 0);
                }
            },
        }
    }
    assert(bindings(after) =~= bindings(before).insert(name, value@));
}

/// A scope and, through `parent`, the scopes around it.
#[derive(Default)]
pub struct Scope {
    pub parent: Option<Box<Scope>>,
    /// The variables of this scope. Of two entries for one name the first
    /// counts.
    pub variables: Vec<(String, Value)>,
}

impl View for Scope {
    type V = Seq<Map<Seq<char>, ValueView>>;

    /// The variables of this scope and of those around it, the innermost
    /// first.
    open spec fn view(&self) -> Seq<Map<Seq<char>, ValueView>> {
        self.frames()
    }
}

impl Scope {
    /// The variables of this scope and of those around it, the innermost
    /// first.
    pub open spec fn frames(&self) -> Seq<Map<Seq<char>, ValueView>>
        decreases self,
    {
        match self.parent {
            Some(parent) => seq![bindings(self.variables@)] + parent.frames(),
            None => seq![bindings(self.variables@)],
        }
    }

    /// The outermost scope, with no variables.
    pub fn new() -> (scope: Scope)
        ensures
            scope@ == seq![Map::<Seq<char>, ValueView>::empty()],
            scope.parent is None,
    {
        let scope = Scope { parent: None, variables: Vec::new() };
        assert(bindings(scope.variables@) =~= Map::<Seq<char>, ValueView>::empty());
        scope
    }

    /// A new scope inside this one, with no variables of its own.
    pub fn push(self) -> (scope: Scope)
        ensures
            scope@ == seq![Map::<Seq<char>, ValueView>::empty()] + self@,
            scope.parent == Some(Box::new(self)),
    {
        let scope = Scope { parent: Some(Box::new(self)), variables: Vec::new() };
        assert(bindings(scope.variables@) =~= Map::<Seq<char>, ValueView>::empty());
        scope
    }

    /// The scope around this one.
    pub fn pop(self) -> (scope: Scope)
        requires
            self.parent is Some,
        ensures
            scope@ == self@.skip(1),
            Some(Box::new(scope)) == self.parent,
    {
        match self.parent {
            Some(parent) => {
                assert(self@.skip(1) =~= parent@);
                *parent
            },
            None => Scope::new(),
        }
    }

    /// Gives the variable `name` of this scope the value `value`, whether it
    /// had one before or not.
    pub fn set(&mut self, name: &str, value: Value)
        ensures
            final(self)@ == old(self)@.update(0, old(self)@[0].insert(name@, value@)),
            final(self).parent == old(self).parent,
    {
        let count: usize = self.variables.len();
        let mut index: usize = 0;
        while index < count && !text_equal(self.variables[index].0.as_str(), name)
            invariant
                index <= count,
                count == self.variables@.len(),
                *self == *old(self),
                forall|earlier: int| 0 <= earlier < index ==> self.variables@[earlier].0@ != name@,
            decreases count - index,
        {
            index += 1;
        }
        let ghost before = self.variables@;
        proof {
            if index < count {
                lemma_position_is(before, name@, 0, index as int);
            } else {
                lemma_position_none(before, name@, 0);
            }
        }
        let entry = (String::from_str(name), value);
        if index < count {
            self.variables.set(index, entry);
        } else {
            self.variables.push(entry);
        }
        proof {
            lemma_bindings_set(before, self.variables@, name@, value);
            assert(self@ =~= old(self)@.update(0, old(self)@[0].insert(name@, value@)));
        }
    }

    /// The value of the variable `reference`: that of the innermost scope
    /// that has it, and `Null` where none has.
    pub fn find(&self, reference: &str) -> (value: Value)
        ensures
            value@ == found(self@, reference@),
        decreases self,
    {
        let count: usize = self.variables.len();
        let mut index: usize = 0;
        while index < count
            invariant
                index <= count,
                count == self.variables@.len(),
                position_of(self.variables@, reference@, 0) == position_of(
                    self.variables@,
                    reference@,
                    index as int,
                ),
            decreases count - index,
        {
            if text_equal(self.variables[index].0.as_str(), reference) {
                return self.variables[index].1.clone();
            }
            index += 1;
        }
        assert(!bindings(self.variables@).contains_key(reference@));
        if let Some(parent) = self.parent.as_ref() {
            assert(self@.skip(1) =~= parent@);
            return parent.find(reference);
        }
        assert(found(self@.skip(1), reference@) == ValueView::Null);
        Value::Null
    }
}

} // verus!
