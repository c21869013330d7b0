//! A compiled statement: its declared columns, its parameter space, and the
//! most recently bound parameter set.

use vstd::prelude::*;

use crate::error::Error;
use crate::row::{find_name, name_views, value_views, ColumnIndex};
use crate::value::{Value, ValueView};

verus! {

/// A compiled statement.
///
/// Parameter indices are 1-based and contiguous; named placeholders resolve
/// into the same 1-based index space.  Supplying a value of any variant
/// succeeds at the binding layer: type mismatches surface later, at read
/// time.
pub struct Statement {
    columns: Vec<String>,
    parameters: Vec<String>,
    bound: Vec<Value>,
}

impl Statement {
    /// Well-formedness: one binding slot per parameter.
    pub closed spec fn wf(self) -> bool {
        self.bound@.len() == self.parameters@.len()
    }

    /// The declared column names, in order.
    pub closed spec fn column_names(self) -> Seq<Seq<char>> {
        name_views(self.columns@)
    }

    /// The placeholder names, in 1-based parameter order; a purely
    /// positional placeholder carries an empty name.
    pub closed spec fn parameter_names(self) -> Seq<Seq<char>> {
        name_views(self.parameters@)
    }

    /// The most recently bound parameter set, in 1-based parameter order.
    pub closed spec fn bindings(self) -> Seq<ValueView> {
        value_views(self.bound@)
    }

    /// Assemble a compiled statement from its declared column names and its
    /// placeholder names; every parameter starts out bound to `Null`.
    pub fn new(columns: Vec<String>, parameters: Vec<String>) -> (s: Statement)
        ensures
            s.wf(),
            s.column_names() == name_views(columns@),
            s.parameter_names() == name_views(parameters@),
            s.bindings().len() == parameters@.len(),
            forall|i: int| 0 <= i < parameters@.len() ==> s.bindings()[i] == ValueView::Null,
    {
        let mut bound: Vec<Value> = Vec::new();
        let mut i: usize = 0;
        while i < parameters.len()
            invariant
                i <= parameters.len(),
                bound@.len() == i,
                forall|j: int| 0 <= j < i ==> bound@[j] == Value::Null,
            decreases parameters.len() - i,
        {
            bound.push(Value::Null);
            i = i + 1;
        }
        proof {
            assert(forall|j: int|
                0 <= j < bound@.len() ==> value_views(bound@)[j] == ValueView::Null);
        }
        Statement { columns, parameters, bound }
    }

    /// The number of columns produced by the statement.
    pub fn column_count(&self) -> (n: usize)
        ensures
            n == self.column_names().len(),
    {
        self.columns.len()
    }

    /// The declared name of the column at 0-based position `i`.
    pub fn column_name(&self, i: usize) -> (name: &String)
        requires
            i < self.column_names().len(),
        ensures
            name@ == self.column_names()[i as int],
    {
        &self.columns[i]
    }

    /// An owned copy of the declared column names, in order.
    pub fn copy_column_names(&self) -> (names: Vec<String>)
        ensures
            name_views(names@) == self.column_names(),
    {
        let mut names: Vec<String> = Vec::new();
        let mut i: usize = 0;
        while i < self.columns.len()
            invariant
                i <= self.columns.len(),
                names@.len() == i,
                forall|j: int| 0 <= j < i ==> name_views(names@)[j] == self.column_names()[j],
            decreases self.columns.len() - i,
        {
            names.push(self.columns[i].clone());
            i = i + 1;
        }
        proof {
            assert(name_views(names@) =~= self.column_names());
        }
        names
    }

    /// The number of parameter slots.
    pub fn parameter_count(&self) -> (n: usize)
        requires
            self.wf(),
        ensures
            n == self.parameter_names().len(),
            n == self.bindings().len(),
    {
        self.parameters.len()
    }

    /// The 1-based index of the named placeholder, or `None` when no
    /// placeholder carries the name.
    pub fn parameter_index(&self, name: &str) -> (r: Option<usize>)
        ensures
            match r {
                Some(i) => 1 <= i <= self.parameter_names().len() && find_name(
                    self.parameter_names(),
                    name@,
                ) == Some(i - 1),
                None => find_name(self.parameter_names(), name@) is None,
            },
    {
        match name.resolve(&self.parameters) {
            Some(i) => Some(i + 1),
            None => None,
        }
    }

    /// The value currently bound at 1-based parameter index `i`.
    pub fn bound_value(&self, i: usize) -> (v: &Value)
        requires
            self.wf(),
            1 <= i <= self.bindings().len(),
        ensures
            v@ == self.bindings()[i - 1],
    {
        &self.bound[i - 1]
    }

    /// Bind `value` at 1-based parameter index `i`.
    ///
    /// The index must lie in `[1, parameter_count]`, else the binding fails
    /// with a range error and the bound set stays as it was.
    pub fn bind_index(&mut self, i: usize, value: Value) -> (r: Result<(), Error>)
        requires
            old(self).wf(),
        ensures
            final(self).wf(),
            final(self).column_names() == old(self).column_names(),
            final(self).parameter_names() == old(self).parameter_names(),
            1 <= i <= old(self).bindings().len() ==> (r is Ok && final(self).bindings() == old(
                self,
            ).bindings().update(i - 1, value@)),
            !(1 <= i <= old(self).bindings().len()) ==> (r matches Err(e) && e.is_bind_range()
                && final(self).bindings() == old(self).bindings()),
    {
        if 1 <= i && i <= self.bound.len() {
            self.bound.remove(i - 1);
            self.bound.insert(i - 1, value);
            proof {
                assert(self.bound@ =~= old(self).bound@.update(i - 1, value));
                assert(final(self).bindings() =~= old(self).bindings().update(i - 1, value@));
            }
            Ok(())
        } else {
            Err(Error::bind_range())
        }
    }

    /// Bind `value` at the placeholder carrying `name`; an unknown name
    /// fails with a range error, as an index outside the parameter space
    /// does.
    pub fn bind_name(&mut self, name: &str, value: Value) -> (r: Result<(), Error>)
        requires
            old(self).wf(),
        ensures
            final(self).wf(),
            final(self).column_names() == old(self).column_names(),
            final(self).parameter_names() == old(self).parameter_names(),
            match find_name(old(self).parameter_names(), name@) {
                Some(i) => r is Ok && final(self).bindings() == old(self).bindings().update(
                    i,
                    value@,
                ),
                None => r matches Err(e) && e.is_bind_range() && final(self).bindings() == old(
                    self,
                ).bindings(),
            },
    {
        match self.parameter_index(name) {
            Some(i) => self.bind_index(i, value),
            None => Err(Error::bind_range()),
        }
    }
}

} // verus!
