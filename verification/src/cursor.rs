//! The step state machine that drives a compiled statement through its
//! result set.
//!
//! A cursor is `Ready` before any row has been fetched or after a reset,
//! `HasRow` while a row is available, `Done` once the engine reported
//! completion, and `Failed` once it reported any other status.  `Failed` is
//! terminal under stepping: every further call surfaces the captured error
//! until a reset.  The engine's report for one step arrives as a
//! [`StepOutcome`]; the layer that performs the foreign call obtains one
//! only when [`Cursor::needs_step`] says a step is owed.

use vstd::prelude::*;

use crate::error::Error;
use crate::row::{find_name, value_views, ColumnIndex, Row};
use crate::statement::Statement;
use crate::value::{clone_values, kind_of, Type, Value, ValueView};

verus! {

/// The iteration state of a cursor.
#[derive(Clone, Copy, Debug, PartialEq, Eq, Structural)]
pub enum CursorState {
    /// No row fetched yet, or freshly reset.
    Ready,
    /// A row is available and decodable.
    HasRow,
    /// The engine reported completion; no further rows.
    Done,
    /// The engine reported a failing status; terminal until reset.
    Failed,
}

/// What the engine reported for one step of a statement.
#[derive(Debug)]
pub enum StepOutcome {
    /// A row is available, carrying one value per column.
    NewRow(Vec<Value>),
    /// The statement ran to completion.
    Finished,
    /// Any other status, with the status code and the diagnostic message
    /// recovered at the moment of failure.
    Failed(isize, Option<String>),
}

/// The state reached by stepping: terminal states swallow the outcome,
/// anywhere else the outcome decides.
pub open spec fn next_state(s: CursorState, outcome: StepOutcome) -> CursorState {
    match s {
        CursorState::Done => CursorState::Done,
        CursorState::Failed => CursorState::Failed,
        _ => match outcome {
            StepOutcome::NewRow(_) => CursorState::HasRow,
            StepOutcome::Finished => CursorState::Done,
            StepOutcome::Failed(_, _) => CursorState::Failed,
        },
    }
}

/// The state reached by a reset: always `Ready`, from anywhere.
pub open spec fn reset_state(s: CursorState) -> CursorState {
    CursorState::Ready
}

/// Stepping never leaves `Failed` or `Done`: a failed cursor keeps
/// surfacing its captured error and a finished one keeps reporting
/// completion, whatever the engine would have said.
pub proof fn lemma_terminal_states(s: CursorState, outcome: StepOutcome)
    requires
        s is Failed || s is Done,
    ensures
        next_state(s, outcome) == s,
{
}

/// From `Done` or `Failed`, a reset returns the machine to `Ready`, and a
/// step that yields a row then moves it to `HasRow`: iteration restarts
/// from the start of the result set.
pub proof fn lemma_reset_restarts(s: CursorState, outcome: StepOutcome)
    requires
        s is Done || s is Failed,
        outcome is NewRow,
    ensures
        reset_state(s) is Ready,
        next_state(reset_state(s), outcome) is HasRow,
{
}

/// A stateful iterator over the rows of a compiled statement.
pub struct Cursor {
    statement: Statement,
    state: CursorState,
    current: Vec<Value>,
    fail: Option<Error>,
}

impl Cursor {
    /// Well-formedness: a held row spans the columns, and an error is
    /// captured exactly in the `Failed` state.
    pub closed spec fn wf(self) -> bool {
        &&& self.statement.wf()
        &&& self.state is HasRow ==> self.current@.len() == self.statement.column_names().len()
        &&& self.state is Failed <==> self.fail is Some
    }

    /// The iteration state.
    pub closed spec fn state(self) -> CursorState {
        self.state
    }

    /// The compiled statement the cursor drives.
    pub closed spec fn stmt(self) -> Statement {
        self.statement
    }

    /// The declared column names, in order.
    pub open spec fn columns(self) -> Seq<Seq<char>> {
        self.stmt().column_names()
    }

    /// The values of the current row, while one is held.
    pub closed spec fn row(self) -> Seq<ValueView> {
        value_views(self.current@)
    }

    /// The error captured in the `Failed` state.
    pub closed spec fn failure(self) -> Option<Error> {
        self.fail
    }

    /// Build a cursor over a compiled statement, ready for a first pass.
    pub fn new(statement: Statement) -> (c: Cursor)
        requires
            statement.wf(),
        ensures
            c.wf(),
            c.state() is Ready,
            c.stmt() == statement,
    {
        Cursor { statement, state: CursorState::Ready, current: Vec::new(), fail: None }
    }

    /// The iteration state, observed.
    pub fn current_state(&self) -> (s: CursorState)
        ensures
            s == self.state(),
    {
        self.state
    }

    /// Whether a step of the engine is owed: terminal states answer
    /// without consulting the engine again.
    pub fn needs_step(&self) -> (b: bool)
        ensures
            b == (self.state() is Ready || self.state() is HasRow),
    {
        match self.state {
            CursorState::Ready => true,
            CursorState::HasRow => true,
            CursorState::Done => false,
            CursorState::Failed => false,
        }
    }

    /// The number of columns produced by the statement.
    pub fn column_count(&self) -> (n: usize)
        ensures
            n == self.columns().len(),
    {
        self.statement.column_count()
    }

    /// The declared name of the column at 0-based position `i`.
    pub fn column_name(&self, i: usize) -> (name: &String)
        requires
            i < self.columns().len(),
        ensures
            name@ == self.columns()[i as int],
    {
        self.statement.column_name(i)
    }

    /// The runtime type of the denoted column of the current row — or
    /// `Null` while no row is held: before the first successful step the
    /// engine knows no more, and the cursor reports the same.
    pub fn column_type<I: ColumnIndex>(&self, index: I) -> (r: Result<Type, Error>)
        requires
            self.wf(),
        ensures
            match index.resolves(self.columns()) {
                Some(i) => r matches Ok(t) && t == (if self.state() is HasRow {
                    kind_of(self.row()[i])
                } else {
                    Type::Null
                }),
                None => r matches Err(e) && e.is_no_column(),
            },
    {
        let names = self.statement.copy_column_names();
        match index.resolve(&names) {
            Some(i) => {
                if self.holds_row() {
                    Ok(self.current[i].kind())
                } else {
                    Ok(Type::Null)
                }
            },
            None => Err(Error::no_column()),
        }
    }

    /// The value currently bound at 1-based parameter index `i`.
    pub fn bound_value(&self, i: usize) -> (v: &Value)
        requires
            self.wf(),
            1 <= i <= self.stmt().bindings().len(),
        ensures
            v@ == self.stmt().bindings()[i - 1],
    {
        self.statement.bound_value(i)
    }

    /// The number of parameter slots of the statement.
    pub fn parameter_count(&self) -> (n: usize)
        requires
            self.wf(),
        ensures
            n == self.stmt().parameter_names().len(),
            n == self.stmt().bindings().len(),
    {
        self.statement.parameter_count()
    }

    /// Perform one transition of the step machine.
    ///
    /// `outcome` is the engine's report for this step; it is consulted only
    /// when a step is owed.  In `Done` the cursor answers completion and in
    /// `Failed` it surfaces the captured error, without the engine.
    pub fn try_next(&mut self, outcome: StepOutcome) -> (r: Result<Option<Row>, Error>)
        requires
            old(self).wf(),
            (old(self).state() is Ready || old(self).state() is HasRow) ==> match outcome {
                StepOutcome::NewRow(values) => values@.len() == old(self).columns().len(),
                _ => true,
            },
        ensures
            final(self).wf(),
            final(self).stmt().column_names() == old(self).stmt().column_names(),
            final(self).stmt().parameter_names() == old(self).stmt().parameter_names(),
            final(self).stmt().bindings() == old(self).stmt().bindings(),
            final(self).state() == next_state(old(self).state(), outcome),
            old(self).state() is Failed ==> ({
                &&& r matches Err(e)
                &&& old(self).failure() matches Some(f)
                &&& e == f
                &&& final(self).failure() == old(self).failure()
            }),
            old(self).state() is Done ==> (r matches Ok(row) && row is None),
            (old(self).state() is Ready || old(self).state() is HasRow) ==> match outcome {
                StepOutcome::NewRow(values) => {
                    &&& r matches Ok(produced)
                    &&& produced matches Some(row)
                    &&& row.wf()
                    &&& row.columns() == old(self).columns()
                    &&& row.contents() == value_views(values@)
                    &&& final(self).row() == value_views(values@)
                },
                StepOutcome::Finished => r matches Ok(row) && row is None,
                StepOutcome::Failed(code, message) => {
                    &&& r matches Err(e)
                    &&& e == (Error { code: Some(code), message: message })
                    &&& final(self).failure() == Some(e)
                },
            },
    {
        match self.state {
            CursorState::Failed => match &self.fail {
                Some(e) => Err(e.clone()),
                None => vstd::pervasive::unreached(),
            },
            CursorState::Done => Ok(None),
            _ => match outcome {
                StepOutcome::NewRow(values) => {
                    let names = self.statement.copy_column_names();
                    self.current = clone_values(&values);
                    self.state = CursorState::HasRow;
                    proof {
                        assert(value_views(self.current@) =~= value_views(values@));
                    }
                    let row = Row::new(names, values);
                    Ok(Some(row))
                },
                StepOutcome::Finished => {
                    self.state = CursorState::Done;
                    Ok(None)
                },
                StepOutcome::Failed(code, message) => {
                    let e = Error { code: Some(code), message };
                    self.fail = Some(e.clone());
                    self.state = CursorState::Failed;
                    Err(e)
                },
            },
        }
    }

    /// Return the machine to `Ready`, dropping any held row and any
    /// captured error; always permitted, and the bound parameter set stays
    /// as it was, so a fresh pass over the same statement can begin.
    pub fn reset(&mut self)
        requires
            old(self).wf(),
        ensures
            final(self).wf(),
            final(self).state() == reset_state(old(self).state()),
            final(self).stmt() == old(self).stmt(),
            final(self).failure() is None,
            final(self).row() == Seq::<ValueView>::empty(),
    {
        self.state = CursorState::Ready;
        self.current = Vec::new();
        self.fail = None;
        proof {
            assert(self.row() =~= Seq::<ValueView>::empty());
        }
    }

    /// Bind `value` at 1-based parameter index `i` and return the cursor
    /// to `Ready`: rebinding implies a fresh pass.
    pub fn bind_index(&mut self, i: usize, value: Value) -> (r: Result<(), Error>)
        requires
            old(self).wf(),
        ensures
            final(self).wf(),
            final(self).state() is Ready,
            final(self).failure() is None,
            final(self).stmt().column_names() == old(self).stmt().column_names(),
            final(self).stmt().parameter_names() == old(self).stmt().parameter_names(),
            1 <= i <= old(self).stmt().bindings().len() ==> (r is Ok && final(self).stmt().bindings()
                == old(self).stmt().bindings().update(i - 1, value@)),
            !(1 <= i <= old(self).stmt().bindings().len()) ==> (r matches Err(e)
                && e.is_bind_range() && final(self).stmt().bindings() == old(
                self,
            ).stmt().bindings()),
    {
        self.state = CursorState::Ready;
        self.current = Vec::new();
        self.fail = None;
        self.statement.bind_index(i, value)
    }

    /// Bind `value` at the placeholder carrying `name` and return the
    /// cursor to `Ready`.
    pub fn bind_name(&mut self, name: &str, value: Value) -> (r: Result<(), Error>)
        requires
            old(self).wf(),
        ensures
            final(self).wf(),
            final(self).state() is Ready,
            final(self).failure() is None,
            final(self).stmt().column_names() == old(self).stmt().column_names(),
            final(self).stmt().parameter_names() == old(self).stmt().parameter_names(),
            match find_name(old(self).stmt().parameter_names(), name@) {
                Some(i) => r is Ok && final(self).stmt().bindings() == old(
                    self,
                ).stmt().bindings().update(i, value@),
                None => r matches Err(e) && e.is_bind_range() && final(self).stmt().bindings()
                    == old(self).stmt().bindings(),
            },
    {
        self.state = CursorState::Ready;
        self.current = Vec::new();
        self.fail = None;
        self.statement.bind_name(name, value)
    }

    /// Bind a whole ordered value sequence at 1-based positions `1..=n`,
    /// returning the cursor to `Ready`.
    ///
    /// Binding stops at the first failure: with more values than parameter
    /// slots, every slot receives its value and the overflowing position
    /// fails with a range error.
    pub fn bind_all(&mut self, values: &Vec<Value>) -> (r: Result<(), Error>)
        requires
            old(self).wf(),
        ensures
            final(self).wf(),
            final(self).state() is Ready,
            final(self).failure() is None,
            final(self).stmt().column_names() == old(self).stmt().column_names(),
            final(self).stmt().parameter_names() == old(self).stmt().parameter_names(),
            final(self).stmt().bindings().len() == old(self).stmt().bindings().len(),
            forall|j: int|
                0 <= j < old(self).stmt().bindings().len() ==> final(self).stmt().bindings()[j]
                    == (if j < values@.len() {
                    values@[j]@
                } else {
                    old(self).stmt().bindings()[j]
                }),
            values@.len() <= old(self).stmt().bindings().len() ==> r is Ok,
            values@.len() > old(self).stmt().bindings().len() ==> (r matches Err(e)
                && e.is_bind_range()),
    {
        self.state = CursorState::Ready;
        self.current = Vec::new();
        self.fail = None;
        let ghost n = self.statement.bindings().len();
        let mut j: usize = 0;
        while j < values.len()
            invariant
                old(self).wf(),
                self.statement.wf(),
                self.state is Ready,
                self.fail is None,
                j <= values@.len(),
                j <= n,
                n == self.statement.bindings().len(),
                n == old(self).stmt().bindings().len(),
                self.statement.column_names() == old(self).stmt().column_names(),
                self.statement.parameter_names() == old(self).stmt().parameter_names(),
                forall|k: int|
                    0 <= k < n ==> self.statement.bindings()[k] == (if k < j {
                        values@[k]@
                    } else {
                        old(self).stmt().bindings()[k]
                    }),
            decreases values@.len() - j,
        {
            let value = values[j].clone();
            match self.statement.bind_index(j + 1, value) {
                Ok(_) => {},
                Err(e) => {
                    return Err(e);
                },
            }
            j = j + 1;
        }
        Ok(())
    }
}

impl Cursor {
    /// Whether a row is currently held.
    fn holds_row(&self) -> (b: bool)
        ensures
            b == (self.state() is HasRow),
    {
        match self.state {
            CursorState::HasRow => true,
            _ => false,
        }
    }
}

} // verus!
