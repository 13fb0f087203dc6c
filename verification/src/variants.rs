//! The values of fields, and the columns that collect them.

use vstd::prelude::*;
use vstd::string::*;
use crate::text::same_text;

verus! {

/// A 32-bit float as the library carries it. The library never computes on
/// floats: it hands them through, and leaves their arithmetic to its
/// caller.
#[derive(Clone, Copy, Debug, PartialEq, Eq, Structural)]
pub enum Float32 {
    /// The IEEE 754 bit pattern of the value.
    Bits(u32),
    /// A world coordinate as the sum it is still to become: the float
    /// nearest to `origin` plus the float with the bit pattern `offset`.
    /// `origin` is where the grid cell of the coordinate begins, `offset`
    /// how far into the cell the coordinate lies.
    Cell { origin: i64, offset: u32 },
}

/// One value of a field, with the tag that says how to read it.
#[derive(Debug, PartialEq)]
pub enum Variant {
    Bool(bool),
    U32(u32),
    I32(i32),
    F32(Float32),
    U64(u64),
    String(String),
    Handle(u32),
}

impl Clone for Variant {
    fn clone(&self) -> (r: Self)
        ensures
            r == *self,
    {
        match self {
            Variant::Bool(b) => Variant::Bool(*b),
            Variant::U32(v) => Variant::U32(*v),
            Variant::I32(v) => Variant::I32(*v),
            Variant::F32(v) => Variant::F32(*v),
            Variant::U64(v) => Variant::U64(*v),
            Variant::String(s) => Variant::String(s.clone()),
            Variant::Handle(h) => Variant::Handle(*h),
        }
    }
}

/// The values of one field, one entry for each player and tick visited,
/// in the order of the visits. `None` says that there was nothing to read.
#[derive(Debug, PartialEq)]
pub struct PropColumn {
    pub data: Vec<Option<Variant>>,
}

impl PropColumn {
    /// A column without entries.
    pub fn new() -> (column: Self)
        ensures
            column.data@ == Seq::<Option<Variant>>::empty(),
    {
        PropColumn { data: Vec::new() }
    }

    /// Appends `item` as the last entry.
    pub fn push(&mut self, item: Option<Variant>)
        ensures
            final(self).data@ == old(self).data@.push(item),
    {
        self.data.push(item);
    }

    /// The number of entries.
    pub fn len(&self) -> (n: usize)
        ensures
            n == self.data@.len(),
    {
        self.data.len()
    }
}

/// What a set of columns holds: the entries of each column, by the name of
/// the column's field.
pub type Columns = Map<Seq<char>, Seq<Option<Variant>>>;

/// The columns collected so far, found by the name of their field. A
/// column comes into being with its first entry and is never removed.
#[derive(Debug)]
pub struct OutputColumns {
    names: Vec<String>,
    columns: Vec<PropColumn>,
}

impl View for OutputColumns {
    type V = Columns;

    closed spec fn view(&self) -> Self::V {
        Map::new(
            |name: Seq<char>| self.holds(name),
            |name: Seq<char>| self.columns@[self.position(name)].data@,
        )
    }
}

impl OutputColumns {
    #[verifier::type_invariant]
    spec fn well_formed(&self) -> bool {
        &&& self.names@.len() == self.columns@.len()
        &&& forall|i: int, j: int|
            0 <= i < j < self.names@.len() ==> self.names@[i]@ != self.names@[j]@
    }

    spec fn holds(&self, name: Seq<char>) -> bool {
        exists|i: int| 0 <= i < self.names@.len() && self.names@[i]@ == name
    }

    spec fn position(&self, name: Seq<char>) -> int {
        choose|i: int| 0 <= i < self.names@.len() && self.names@[i]@ == name
    }

    /// No columns.
    pub fn new() -> (output: Self)
        ensures
            output@ == Columns::empty(),
    {
        OutputColumns { names: Vec::new(), columns: Vec::new() }
    }

    /// The column `name`, where it exists.
    pub fn get(&self, name: &str) -> (column: Option<&PropColumn>)
        ensures
            match column {
                Some(column) => self@.contains_key(name@) && column.data@ == self@[name@],
                None => !self@.contains_key(name@),
            },
    {
        proof {
            use_type_invariant(self);
        }
        match Self::find(&self.names, name) {
            Some(i) => Some(&self.columns[i]),
            None => None,
        }
    }

    /// The names of the columns, each once.
    pub fn names(&self) -> (names: &Vec<String>)
        ensures
            forall|i: int, j: int| 0 <= i < j < names@.len() ==> names@[i]@ != names@[j]@,
            forall|name: Seq<char>|
                self@.contains_key(name) <==> exists|i: int|
                    0 <= i < names@.len() && names@[i]@ == name,
    {
        proof {
            use_type_invariant(self);
        }
        &self.names
    }

    fn find(names: &Vec<String>, name: &str) -> (at: Option<usize>)
        ensures
            match at {
                Some(i) => i < names@.len() && names@[i as int]@ == name@,
                None => forall|k: int| 0 <= k < names@.len() ==> names@[k]@ != name@,
            },
    {
        let mut i: usize = 0;
        while i < names.len()
            invariant
                i <= names@.len(),
                forall|k: int| 0 <= k < i ==> names@[k]@ != name@,
            decreases names@.len() - i,
        {
            if same_text(names[i].as_str(), name) {
                return Some(i);
            }
            i += 1;
        }
        None
    }

    /// Appends `item` to the column `name`, which is made first if this is
    /// its first entry.
    pub fn push(&mut self, name: &str, item: Option<Variant>)
        ensures
            final(self)@ == pushed(old(self)@, name@, item),
    {
        let mut taken = OutputColumns::new();
        core::mem::swap(self, &mut taken);
        proof {
            use_type_invariant(&taken);
        }
        let ghost before = taken;
        let OutputColumns { mut names, mut columns } = taken;
        match Self::find(&names, name) {
            Some(i) => columns[i].push(item),
            None => {
                let mut column = PropColumn::new();
                column.push(item);
                names.push(name.to_owned());
                columns.push(column);
            },
        }
        *self = OutputColumns { names, columns };
        assert(final(self)@ =~= pushed(old(self)@, name@, item)) by {
            let after = *final(self);
            assert forall|n: Seq<char>| after.holds(n) <==> (before.holds(n) || n == name@) by {
                if before.holds(n) {
                    assert(after.names@[before.position(n)]@ == n);
                } else if n == name@ {
                    assert(after.names@[after.names@.len() - 1]@ == n);
                }
            }
        }
    }
}

/// The entries that `columns` has under `name`; none where it has no such
/// column.
pub open spec fn column_entries(columns: Columns, name: Seq<char>) -> Seq<Option<Variant>> {
    if columns.contains_key(name) {
        columns[name]
    } else {
        Seq::empty()
    }
}

/// `columns` after `item` was appended to the column `name`.
pub open spec fn pushed(columns: Columns, name: Seq<char>, item: Option<Variant>) -> Columns {
    columns.insert(name, column_entries(columns, name).push(item))
}

} // verus!
