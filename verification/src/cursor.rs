use vstd::prelude::*;
use crate::bind::row_view;
use crate::bind::Binds;
use crate::bind::MysqlType;
use crate::error::Error;
use crate::error::QueryResult;
use crate::row::MysqlRow;

verus! {

/// The cursor's state machine.
#[derive(Clone, Copy, PartialEq, Eq, Structural, Debug)]
pub enum CursorState {
    /// Constructed, no fetch issued yet.
    Ready,
    /// A row has been fetched and not yet superseded.
    RowAvailable,
    /// Terminal: the statement signalled no more data.
    Exhausted,
    /// Terminal: the statement reported an error.
    Failed,
}

/// What one fetch attempt against the statement came back with. The fetch
/// itself — the wire round trip — happens outside this library; its result
/// arrives here as plain data.
pub enum FetchEvent {
    /// The fetch produced a row: per column `None` for SQL NULL, otherwise
    /// the value's full bytes as the statement holds them.
    Row(Vec<Option<Vec<u8>>>),
    /// The statement signalled no more data.
    NoData,
    /// The statement's error state is set, with this server error code.
    ServerError(u32),
}

/// The cursor's answer to one fetch event.
pub enum Fetched {
    /// A row is available through `row()` until the next `step`.
    Row,
    /// The result set is exhausted, or the cursor was already terminal.
    End,
    /// The statement reported an error; it is surfaced this once and the
    /// cursor is failed for good.
    Failed(Error),
}

/// The state the cursor moves to on `event`: terminal states absorb every
/// event; otherwise a row keeps the cursor fetching, no-more-data exhausts
/// it, and an error fails it.
pub open spec fn spec_next_state(s: CursorState, e: FetchEvent) -> CursorState {
    if s is Exhausted || s is Failed {
        s
    } else {
        match e {
            FetchEvent::Row(_) => CursorState::RowAvailable,
            FetchEvent::NoData => CursorState::Exhausted,
            FetchEvent::ServerError(_) => CursorState::Failed,
        }
    }
}

/// The verdict the cursor answers `event` with, from state `s`.
pub open spec fn spec_verdict(s: CursorState, e: FetchEvent) -> Fetched {
    if s is Exhausted || s is Failed {
        Fetched::End
    } else {
        match e {
            FetchEvent::Row(_) => Fetched::Row,
            FetchEvent::NoData => Fetched::End,
            FetchEvent::ServerError(c) => Fetched::Failed(Error::ServerError(c)),
        }
    }
}

/// Drives the fetch loop for one prepared statement: owns the bind
/// descriptor set the statement writes rows into, and hands out one row
/// view per successful fetch.
pub struct StatementIterator {
    /// The bind descriptor set every fetched row is written into.
    pub output_binds: Binds,
    /// Where the cursor stands in its state machine.
    pub state: CursorState,
}

impl StatementIterator {
    /// Builds a cursor for a statement whose result metadata lists
    /// `field_types`. A statement with no result columns cannot be
    /// iterated: that is a usage error, and no fetch is attempted.
    pub fn new(field_types: Vec<MysqlType>) -> (r: QueryResult<StatementIterator>)
        ensures
            field_types@.len() == 0 <==> r is Err,
            r is Err ==> r->Err_0 == Error::QueryBuilderError,
            r matches Ok(it) ==> {
                &&& it.state is Ready
                &&& it.output_binds.col_count() == field_types@.len()
                &&& forall|i: int|
                    0 <= i < field_types@.len() ==> (
                    #[trigger] it.output_binds.data@[i]).is_pristine()
                        && it.output_binds.data@[i].tag == field_types@[i]
            },
    {
        if field_types.len() == 0 {
            return Err(Error::QueryBuilderError);
        }
        let output_binds = Binds::from_output_types(&field_types);
        Ok(StatementIterator { output_binds, state: CursorState::Ready })
    }

    /// Advances the cursor by one fetch round. The previous row's dynamic
    /// buffers are cleared first; a fetched row is completed through the
    /// truncation path before it is exposed; an error or the no-more-data
    /// signal moves the cursor to its terminal state. A terminal cursor
    /// answers every further event with `End` and stays unchanged.
    pub fn step(&mut self, event: FetchEvent) -> (r: Fetched)
        requires
            (old(self).state is Ready || old(self).state is RowAvailable) && event is Row
                ==> event->Row_0@.len() == old(self).output_binds.col_count(),
        ensures
            final(self).state == spec_next_state(old(self).state, event),
            r == spec_verdict(old(self).state, event),
            final(self).output_binds.col_count() == old(self).output_binds.col_count(),
            final(self).output_binds.tags() == old(self).output_binds.tags(),
            old(self).state is Exhausted || old(self).state is Failed ==> *final(self) == *old(
                self,
            ),
            (old(self).state is Ready || old(self).state is RowAvailable) && event is Row
                ==> final(self).output_binds.holds_row(row_view(event->Row_0@)),
    {
        match self.state {
            CursorState::Exhausted => Fetched::End,
            CursorState::Failed => Fetched::End,
            _ => {
                self.output_binds.reset_dynamic_buffers();
                match event {
                    FetchEvent::NoData => {
                        self.state = CursorState::Exhausted;
                        Fetched::End
                    },
                    FetchEvent::ServerError(code) => {
                        self.state = CursorState::Failed;
                        Fetched::Failed(Error::ServerError(code))
                    },
                    FetchEvent::Row(cols) => {
                        self.output_binds.apply_fetch(&cols);
                        proof {
                            assert forall|i: int|
                                0 <= i < cols@.len()
                                    && (#[trigger] self.output_binds.data@[i]).is_truncated
                                    implies cols@[i] is Some
                                && self.output_binds.data@[i].length == cols@[i]->0@.len() by {
                                assert(row_view(cols@)[i] == match cols@[i] {
                                    Some(v) => Some(v@),
                                    None => None,
                                });
                            }
                        }
                        if self.output_binds.any_truncated() {
                            self.output_binds.populate_dynamic_buffers(&cols);
                        }
                        self.state = CursorState::RowAvailable;
                        proof {
                            assert forall|i: int|
                                0 <= i < cols@.len() implies {
                                let slot = (#[trigger] self.output_binds.data@[i]);
                                let v = row_view(cols@)[i];
                                &&& (slot.is_null <==> v is None)
                                &&& (v matches Some(val) ==> slot.bytes@ == val && slot.length
                                    == val.len())
                                &&& (v is None ==> slot.bytes@.len() == 0 && slot.length == 0)
                                &&& !slot.is_truncated
                            } by {
                                assert(row_view(cols@)[i] == match cols@[i] {
                                    Some(v) => Some(v@),
                                    None => None,
                                });
                            }
                        }
                        Fetched::Row
                    },
                }
            },
        }
    }

    /// The view of the row the last fetch produced, with its column cursor
    /// at the first column. It borrows the cursor: the next `step`
    /// overwrites the same storage, so the borrow checker keeps any row
    /// view from outliving its fetch.
    pub fn row<'b>(&'b self) -> (r: MysqlRow<'b>)
        requires
            self.state is RowAvailable,
        ensures
            r.binds == self.output_binds,
            r.col_idx == 0,
    {
        MysqlRow { binds: &self.output_binds, col_idx: 0 }
    }
}

/// The verdicts a whole run of fetch events produces, one per event, by the
/// cursor's state machine — `step` answers each event with exactly these.
pub open spec fn spec_run(s: CursorState, events: Seq<FetchEvent>) -> Seq<Fetched>
    decreases events.len(),
{
    if events.len() == 0 {
        Seq::empty()
    } else {
        seq![spec_verdict(s, events[0])] + spec_run(spec_next_state(s, events[0]), events.skip(1))
    }
}

/// A run answers every event with exactly one verdict.
pub proof fn lemma_spec_run_len(s: CursorState, events: Seq<FetchEvent>)
    ensures
        spec_run(s, events).len() == events.len(),
    decreases events.len(),
{
    if events.len() > 0 {
        lemma_spec_run_len(spec_next_state(s, events[0]), events.skip(1));
    }
}

/// A terminal cursor yields nothing more: from `Exhausted` or `Failed`,
/// every further event is answered `End`. In particular an error is
/// surfaced exactly once, and nothing follows it.
pub proof fn lemma_terminal_absorbs(s: CursorState, events: Seq<FetchEvent>)
    requires
        s is Exhausted || s is Failed,
    ensures
        spec_run(s, events).len() == events.len(),
        forall|i: int| 0 <= i < events.len() ==> #[trigger] spec_run(s, events)[i] is End,
    decreases events.len(),
{
    lemma_spec_run_len(s, events);
    if events.len() > 0 {
        lemma_terminal_absorbs(s, events.skip(1));
        assert forall|i: int| 0 <= i < events.len() implies #[trigger] spec_run(s, events)[i]
            is End by {
            if i > 0 {
                assert(spec_run(s, events)[i] == spec_run(s, events.skip(1))[i - 1]);
            }
        }
    }
}

/// Iterating a result set to completion: a cursor that is still fetching
/// answers `n` row events with one row verdict each, the no-more-data
/// signal after them with `End`, and every event past that with `End`
/// again — exactly `n` rows come out, then exhaustion.
pub proof fn lemma_iteration_yields_rows_then_end(
    s: CursorState,
    events: Seq<FetchEvent>,
    n: int,
)
    requires
        s is Ready || s is RowAvailable,
        0 <= n < events.len(),
        forall|i: int| 0 <= i < n ==> #[trigger] events[i] is Row,
        events[n] is NoData,
    ensures
        spec_run(s, events).len() == events.len(),
        forall|i: int| 0 <= i < n ==> #[trigger] spec_run(s, events)[i] is Row,
        spec_run(s, events)[n] is End,
        forall|i: int| n < i < events.len() ==> #[trigger] spec_run(s, events)[i] is End,
    decreases n,
{
    lemma_spec_run_len(s, events);
    if n == 0 {
        lemma_terminal_absorbs(CursorState::Exhausted, events.skip(1));
        assert forall|i: int| 0 < i < events.len() implies #[trigger] spec_run(s, events)[i]
            is End by {
            assert(spec_run(s, events)[i] == spec_run(CursorState::Exhausted, events.skip(1))[i
                - 1]);
        }
    } else {
        lemma_iteration_yields_rows_then_end(CursorState::RowAvailable, events.skip(1), n - 1);
        assert forall|i: int| 0 <= i < n implies #[trigger] spec_run(s, events)[i] is Row by {
            if i > 0 {
                assert(spec_run(s, events)[i] == spec_run(
                    CursorState::RowAvailable,
                    events.skip(1),
                )[i - 1]);
            }
        }
        assert(spec_run(s, events)[n] == spec_run(CursorState::RowAvailable, events.skip(1))[n
            - 1]);
        assert forall|i: int| n < i < events.len() implies #[trigger] spec_run(s, events)[i]
            is End by {
            assert(spec_run(s, events)[i] == spec_run(CursorState::RowAvailable, events.skip(1))[
                i - 1]);
        }
    }
}

} // verus!
