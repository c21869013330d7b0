//! An ephemeral snapshot of the cursor's current position, with indexed and
//! named typed reads, fallible reads, and value extraction.

use vstd::prelude::*;

use crate::error::Error;
use crate::value::{FromValue, Value, ValueView};

verus! {

/// The views of a sequence of owned column names.
pub open spec fn name_views(names: Seq<String>) -> Seq<Seq<char>> {
    names.map_values(|s: String| s@)
}

/// The views of a sequence of owned values.
pub open spec fn value_views(values: Seq<Value>) -> Seq<ValueView> {
    values.map_values(|v: Value| v@)
}

/// The position of the first name equal to `name`, if any.
pub open spec fn find_name(names: Seq<Seq<char>>, name: Seq<char>) -> Option<int>
    decreases names.len(),
{
    if names.len() == 0 {
        None
    } else if names[0] == name {
        Some(0int)
    } else {
        match find_name(names.subrange(1, names.len() as int), name) {
            Some(i) => Some(i + 1),
            None => None,
        }
    }
}

/// A first match at position `i` pins the lookup down.
pub proof fn lemma_find_name_first(names: Seq<Seq<char>>, name: Seq<char>, i: int)
    requires
        0 <= i < names.len(),
        names[i] == name,
        forall|j: int| 0 <= j < i ==> names[j] != name,
    ensures
        find_name(names, name) == Some(i),
    decreases i,
{
    if names[0] == name {
        assert(i == 0);
    } else {
        let rest = names.subrange(1, names.len() as int);
        assert(forall|j: int| 0 <= j < i - 1 ==> rest[j] == names[j + 1]);
        lemma_find_name_first(rest, name, i - 1);
    }
}

/// When no name matches, the lookup misses.
pub proof fn lemma_find_name_none(names: Seq<Seq<char>>, name: Seq<char>)
    requires
        forall|j: int| 0 <= j < names.len() ==> names[j] != name,
    ensures
        find_name(names, name) is None,
    decreases names.len(),
{
    if names.len() > 0 {
        let rest = names.subrange(1, names.len() as int);
        assert(forall|j: int| 0 <= j < rest.len() ==> rest[j] == names[j + 1]);
        lemma_find_name_none(rest, name);
    }
}

/// Taking a value leaves `Null` behind: after the first take at a
/// position, that position reads `Null`, and a later take at it returns
/// `Null` and changes nothing.
pub proof fn lemma_take_idempotent(contents: Seq<ValueView>, i: int)
    requires
        0 <= i < contents.len(),
    ensures
        contents.update(i, ValueView::Null)[i] == ValueView::Null,
        contents.update(i, ValueView::Null).update(i, ValueView::Null) == contents.update(
            i,
            ValueView::Null,
        ),
{
    assert(contents.update(i, ValueView::Null).update(i, ValueView::Null) =~= contents.update(
        i,
        ValueView::Null,
    ));
}

/// A positional or named way of denoting one column.
///
/// A position denotes itself when it lies inside the row; a name denotes
/// the first column carrying it.
pub trait ColumnIndex: Sized {
    /// The column position that this index denotes among the given names.
    spec fn resolves(&self, names: Seq<Seq<char>>) -> Option<int>;

    /// Locate the denoted column among the given names.
    fn resolve(&self, names: &Vec<String>) -> (r: Option<usize>)
        ensures
            match r {
                Some(i) => i < names.len() && self.resolves(name_views(names@)) == Some(i as int),
                None => self.resolves(name_views(names@)) is None,
            },
    ;
}

impl ColumnIndex for usize {
    open spec fn resolves(&self, names: Seq<Seq<char>>) -> Option<int> {
        if (*self as int) < names.len() {
            Some(*self as int)
        } else {
            None
        }
    }

    fn resolve(&self, names: &Vec<String>) -> (r: Option<usize>) {
        if *self < names.len() {
            Some(*self)
        } else {
            None
        }
    }
}

impl<'a> ColumnIndex for &'a str {
    open spec fn resolves(&self, names: Seq<Seq<char>>) -> Option<int> {
        find_name(names, self@)
    }

    fn resolve(&self, names: &Vec<String>) -> (r: Option<usize>) {
        let needle = String::from_str(*self);
        let mut i: usize = 0;
        while i < names.len()
            invariant
                i <= names.len(),
                needle@ == self@,
                forall|j: int| 0 <= j < i ==> name_views(names@)[j] != self@,
            decreases names.len() - i,
        {
            if needle.eq(&names[i]) {
                proof {
                    lemma_find_name_first(name_views(names@), self@, i as int);
                }
                return Some(i);
            }
            i = i + 1;
        }
        proof {
            lemma_find_name_none(name_views(names@), self@);
        }
        None
    }
}

/// A snapshot of one result row: the column names in declared order and the
/// fetched values, one per column.
#[derive(Debug)]
pub struct Row {
    names: Vec<String>,
    values: Vec<Value>,
}

impl Row {
    /// Well-formedness: one value per column.
    pub closed spec fn wf(self) -> bool {
        self.names@.len() == self.values@.len()
    }

    /// The column names, in declared order.
    pub closed spec fn columns(self) -> Seq<Seq<char>> {
        name_views(self.names@)
    }

    /// The stored values, in declared column order.
    pub closed spec fn contents(self) -> Seq<ValueView> {
        value_views(self.values@)
    }

    /// Assemble a row from column names and the values fetched for them.
    pub fn new(names: Vec<String>, values: Vec<Value>) -> (r: Row)
        requires
            names@.len() == values@.len(),
        ensures
            r.wf(),
            r.columns() == name_views(names@),
            r.contents() == value_views(values@),
    {
        Row { names, values }
    }

    /// The number of columns.
    pub fn len(&self) -> (n: usize)
        requires
            self.wf(),
        ensures
            n == self.columns().len(),
            n == self.contents().len(),
    {
        self.values.len()
    }

    /// A reference to the stored value at the denoted column, without
    /// conversion.
    pub fn get<I: ColumnIndex>(&self, index: I) -> (v: &Value)
        requires
            self.wf(),
            index.resolves(self.columns()) is Some,
        ensures
            ({
                let resolved = index.resolves(self.columns());
                resolved matches Some(i) ==> v@ == self.contents()[i]
            }),
    {
        match index.resolve(&self.names) {
            Some(i) => &self.values[i],
            None => vstd::pervasive::unreached(),
        }
    }

    /// Decode the denoted column into a host type; a type disagreement or a
    /// missing column is an error, never a silent default.
    pub fn try_read<T: FromValue, I: ColumnIndex>(&self, index: I) -> (r: Result<T, Error>)
        requires
            self.wf(),
        ensures
            match index.resolves(self.columns()) {
                Some(i) => {
                    &&& T::accepts(self.contents()[i]) ==> (r matches Ok(t) && T::decodes(
                        self.contents()[i],
                        t,
                    ))
                    &&& !T::accepts(self.contents()[i]) ==> (r matches Err(e)
                        && e.is_type_mismatch())
                },
                None => r matches Err(e) && e.is_no_column(),
            },
    {
        match index.resolve(&self.names) {
            Some(i) => T::from_value(&self.values[i]),
            None => Err(Error::no_column()),
        }
    }

    /// Decode the denoted column, for call sites that have already
    /// validated their schema assumptions.
    pub fn read<T: FromValue, I: ColumnIndex>(&self, index: I) -> (t: T)
        requires
            self.wf(),
            index.resolves(self.columns()) matches Some(i) && T::accepts(self.contents()[i]),
        ensures
            ({
                let resolved = index.resolves(self.columns());
                resolved matches Some(i) ==> T::decodes(self.contents()[i], t)
            }),
    {
        match index.resolve(&self.names) {
            Some(i) => match T::from_value(&self.values[i]) {
                Ok(t) => t,
                Err(_) => vstd::pervasive::unreached(),
            },
            None => vstd::pervasive::unreached(),
        }
    }

    /// Remove and return the value at the denoted column, leaving `Null` in
    /// its place: ownership moves out of the row, and a later call at the
    /// same position finds `Null`.
    pub fn take<I: ColumnIndex>(&mut self, index: I) -> (v: Value)
        requires
            old(self).wf(),
            index.resolves(old(self).columns()) is Some,
        ensures
            final(self).wf(),
            final(self).columns() == old(self).columns(),
            ({
                let resolved = index.resolves(old(self).columns());
                resolved matches Some(i) ==> (v@ == old(self).contents()[i]
                    && final(self).contents() == old(self).contents().update(i, ValueView::Null))
            }),
    {
        match index.resolve(&self.names) {
            Some(i) => {
                let v = self.values.remove(i);
                self.values.insert(i, Value::Null);
                proof {
                    assert(self.values@ =~= old(self).values@.update(i as int, Value::Null));
                    assert(final(self).contents() =~= old(self).contents().update(
                        i as int,
                        ValueView::Null,
                    ));
                }
                v
            },
            None => vstd::pervasive::unreached(),
        }
    }

    /// The row as an ordered sequence of column-name and value pairs, in
    /// declared column order.
    pub fn entries(&self) -> (r: Vec<(String, Value)>)
        requires
            self.wf(),
        ensures
            r@.len() == self.columns().len(),
            forall|i: int|
                0 <= i < r@.len() ==> (#[trigger] r@[i]).0@ == self.columns()[i] && r@[i].1@
                    == self.contents()[i],
    {
        let mut r: Vec<(String, Value)> = Vec::new();
        let mut i: usize = 0;
        while i < self.names.len()
            invariant
                self.wf(),
                i <= self.names.len(),
                r@.len() == i,
                forall|j: int|
                    0 <= j < i ==> (#[trigger] r@[j]).0@ == self.columns()[j] && r@[j].1@
                        == self.contents()[j],
            decreases self.names.len() - i,
        {
            r.push((self.names[i].clone(), self.values[i].clone()));
            i = i + 1;
        }
        r
    }
}

} // verus!
