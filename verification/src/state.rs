//! The write-back buffer: the orders received last, held in memory up to a
//! fixed capacity and handed on to be saved, oldest first, when an order
//! arrives and the buffer is full.
//!
//! The buffer never saves anything itself. Adding an order to a full buffer
//! takes the oldest order out and asks for it to be saved; each outcome that
//! is reported back leads to the next order, or to the end of the call.

use std::collections::VecDeque;
use vstd::prelude::*;
use crate::gateway::{first_failure, lemma_first_failure, outcome_view, Outcome, PersistError};
use crate::order::{Order, OrderView};

verus! {

/// Why a buffer cannot be set up.
#[derive(Clone, Copy, Debug, PartialEq, Eq, Structural)]
pub enum ConfigurationError {
    /// The capacity is zero: such a buffer could never admit an order.
    ZeroCapacity,
}

impl ConfigurationError {
    /// A sentence that says what is wrong.
    pub fn message(&self) -> (text: &'static str)
        ensures
            text@ == "Cache size can't be zero"@,
    {
        match self {
            ConfigurationError::ZeroCapacity => "Cache size can't be zero",
        }
    }
}

/// The values of a sequence of orders, in the same order.
pub open spec fn orders_view(orders: Seq<Order>) -> Seq<OrderView> {
    Seq::new(orders.len(), |i: int| orders[i]@)
}

/// The orders that wait in memory, oldest first, and the number of them that
/// the buffer holds at most.
pub struct AppState {
    last_orders: VecDeque<Order>,
    max_capacity: usize,
}

/// The mathematical value of an [`AppState`].
pub ghost struct AppStateView {
    /// The resident orders, oldest first.
    pub orders: Seq<OrderView>,
    /// The most orders that are ever resident.
    pub capacity: int,
}

impl AppStateView {
    /// The capacity is positive and the resident orders are within it.
    pub open spec fn wf(self) -> bool {
        0 < self.capacity && self.orders.len() <= self.capacity
    }

    /// The buffer with one more order at its back.
    pub open spec fn with_newest(self, order: OrderView) -> AppStateView {
        AppStateView { orders: self.orders.push(order), capacity: self.capacity }
    }

    /// The buffer without its oldest order.
    pub open spec fn without_oldest(self) -> AppStateView {
        AppStateView { orders: self.orders.skip(1), capacity: self.capacity }
    }

    /// The order that was admitted last and is still resident.
    pub open spec fn last_order(self) -> Option<OrderView> {
        if self.orders.len() == 0 {
            None
        } else {
            Some(self.orders.last())
        }
    }
}

/// What adding an order asks for next.
#[derive(Debug, PartialEq, Eq)]
pub enum AddStep {
    /// Save `order`, which has left the buffer, and report the outcome
    /// together with `incoming`, the order that waits to be admitted.
    Save { order: Order, incoming: Order },
    /// The call is over, with this result.
    Done(Result<(), PersistError>),
}

/// The mathematical value of an [`AddStep`].
pub ghost enum AddStepView {
    Save { order: OrderView, incoming: OrderView },
    Done(Outcome),
}

impl View for AddStep {
    type V = AddStepView;

    open spec fn view(&self) -> AddStepView {
        match self {
            AddStep::Save { order, incoming } => AddStepView::Save {
                order: order@,
                incoming: incoming@,
            },
            AddStep::Done(result) => AddStepView::Done(outcome_view(*result)),
        }
    }
}

/// One step of a flush. While an order is resident, the oldest leaves the
/// buffer and is to be saved: it is gone from memory before the attempt.
/// Once none is left, the incoming order is admitted.
pub open spec fn drain_next(state: AppStateView, incoming: OrderView) -> (
    AppStateView,
    AddStepView,
) {
    if state.orders.len() == 0 {
        (state.with_newest(incoming), AddStepView::Done(Ok(())))
    } else {
        (state.without_oldest(), AddStepView::Save { order: state.orders[0], incoming })
    }
}

/// What adding an order starts with. Below capacity the order is admitted at
/// once. At capacity the whole buffer is flushed first.
pub open spec fn add_order_step(state: AppStateView, incoming: OrderView) -> (
    AppStateView,
    AddStepView,
) {
    if state.orders.len() >= state.capacity {
        drain_next(state, incoming)
    } else {
        (state.with_newest(incoming), AddStepView::Done(Ok(())))
    }
}

/// What the outcome of a save leads to. A failure ends the call with that
/// failure: the incoming order is not admitted, and what is still resident
/// stays. A success goes on with the flush.
pub open spec fn order_saved_step(state: AppStateView, incoming: OrderView, outcome: Outcome) -> (
    AppStateView,
    AddStepView,
) {
    match outcome {
        Err(cause) => (state, AddStepView::Done(Err(cause))),
        Ok(_) => drain_next(state, incoming),
    }
}

impl View for AppState {
    type V = AppStateView;

    closed spec fn view(&self) -> AppStateView {
        AppStateView { orders: orders_view(self.last_orders@), capacity: self.max_capacity as int }
    }
}

/// One step of a flush on the resident orders themselves.
fn drain(orders: &mut VecDeque<Order>, incoming: Order) -> (step: AddStep)
    ensures
        final(orders)@.len() == if old(orders)@.len() == 0 {
            1
        } else {
            old(orders)@.len() - 1
        },
        orders_view(final(orders)@) == if old(orders)@.len() == 0 {
            orders_view(old(orders)@).push(incoming@)
        } else {
            orders_view(old(orders)@).skip(1)
        },
        step@ == if old(orders)@.len() == 0 {
            AddStepView::Done(Ok(()))
        } else {
            AddStepView::Save { order: old(orders)@[0]@, incoming: incoming@ }
        },
{
    let ghost before = orders@;
    match orders.pop_front() {
        Some(order) => {
            assert(orders_view(orders@) =~= orders_view(before).skip(1));
            AddStep::Save { order, incoming }
        },
        None => {
            orders.push_back(incoming);
            assert(orders_view(orders@) =~= orders_view(before).push(incoming@));
            AddStep::Done(Ok(()))
        },
    }
}

impl AppState {
    #[verifier::type_invariant]
    spec fn inv(self) -> bool {
        0 < self.max_capacity && self.last_orders@.len() <= self.max_capacity
    }

    /// An empty buffer of the given capacity.
    pub fn new(capacity: usize) -> (state: AppState)
        requires
            capacity > 0,
        ensures
            state@ == (AppStateView { orders: Seq::empty(), capacity: capacity as int }),
            state@.wf(),
    {
        let state = AppState { last_orders: VecDeque::new(), max_capacity: capacity };
        assert(orders_view(state.last_orders@) =~= Seq::<OrderView>::empty());
        state
    }

    /// An empty buffer of the given capacity, or the reason why there is none:
    /// a capacity of zero gives no buffer.
    pub fn try_new(capacity: usize) -> (made: Result<AppState, ConfigurationError>)
        ensures
            capacity == 0 <==> made is Err,
            made matches Ok(state) ==> state@ == (AppStateView {
                orders: Seq::empty(),
                capacity: capacity as int,
            }) && state@.wf(),
            made matches Err(e) ==> e == ConfigurationError::ZeroCapacity,
    {
        if capacity == 0 {
            Err(ConfigurationError::ZeroCapacity)
        } else {
            Ok(AppState::new(capacity))
        }
    }

    /// The number of resident orders, which is never above the capacity.
    pub fn len(&self) -> (n: usize)
        ensures
            n == self@.orders.len(),
            self@.wf(),
    {
        proof {
            use_type_invariant(self);
        }
        self.last_orders.len()
    }

    /// The most orders that are ever resident, which is above zero.
    pub fn capacity(&self) -> (n: usize)
        ensures
            n == self@.capacity,
            self@.wf(),
    {
        proof {
            use_type_invariant(self);
        }
        self.max_capacity
    }

    /// Takes in an order. It is admitted at once while the buffer is below
    /// capacity. Otherwise the buffer is flushed first: the step that comes
    /// back asks for the oldest order to be saved, and the incoming order
    /// waits outside the buffer until the flush is through.
    pub fn add_order(&mut self, last_order: Order) -> (step: AddStep)
        ensures
            (final(self)@, step@) == add_order_step(old(self)@, last_order@),
            old(self)@.wf(),
            final(self)@.wf(),
    {
        proof {
            use_type_invariant(&*self);
        }
        let mut orders: VecDeque<Order> = VecDeque::new();
        std::mem::swap(&mut self.last_orders, &mut orders);
        let step = if orders.len() >= self.max_capacity {
            drain(&mut orders, last_order)
        } else {
            let ghost before = orders@;
            orders.push_back(last_order);
            assert(orders_view(orders@) =~= orders_view(before).push(last_order@));
            AddStep::Done(Ok(()))
        };
        std::mem::swap(&mut self.last_orders, &mut orders);
        step
    }

    /// Takes the outcome of the save that the last step asked for, with the
    /// order that waits to be admitted, and says what follows from it.
    pub fn order_saved(&mut self, incoming: Order, outcome: Result<(), PersistError>) -> (step:
        AddStep)
        ensures
            (final(self)@, step@) == order_saved_step(
                old(self)@,
                incoming@,
                outcome_view(outcome),
            ),
            old(self)@.wf(),
            final(self)@.wf(),
    {
        proof {
            use_type_invariant(&*self);
        }
        match outcome {
            Err(e) => AddStep::Done(Err(e)),
            Ok(_) => {
                let mut orders: VecDeque<Order> = VecDeque::new();
                std::mem::swap(&mut self.last_orders, &mut orders);
                let step = drain(&mut orders, incoming);
                std::mem::swap(&mut self.last_orders, &mut orders);
                step
            },
        }
    }

    /// A copy of the order that was admitted last and is still resident, if
    /// there is one. Nothing is saved and nothing changes.
    pub fn get_last_order(&self) -> (last: Option<Order>)
        ensures
            match last {
                Some(order) => self@.last_order() == Some(order@),
                None => self@.last_order() is None,
            },
    {
        let n = self.last_orders.len();
        if n == 0 {
            None
        } else {
            Some(self.last_orders[n - 1].clone())
        }
    }
}

/// One call that adds an order, seen from outside: the buffer as the call
/// has left it so far, the orders it has asked to be saved, first to last,
/// and its result once it has one.
pub ghost struct AddRun {
    pub state: AppStateView,
    pub saved: Seq<OrderView>,
    pub result: Option<Outcome>,
}

/// A call that stands at `step`, fed the outcomes of its saves one after the
/// other until it ends or they run out.
pub open spec fn add_run_from(state: AppStateView, step: AddStepView, outcomes: Seq<Outcome>) -> AddRun
    decreases outcomes.len(),
{
    match step {
        AddStepView::Done(result) => AddRun { state, saved: Seq::empty(), result: Some(result) },
        AddStepView::Save { order, incoming } => if outcomes.len() == 0 {
            AddRun { state, saved: seq![order], result: None }
        } else {
            let after = order_saved_step(state, incoming, outcomes[0]);
            let rest = add_run_from(after.0, after.1, outcomes.skip(1));
            AddRun { state: rest.state, saved: seq![order] + rest.saved, result: rest.result }
        },
    }
}

/// The call that adds `incoming` to the buffer `state`, fed the outcomes of
/// its saves one after the other.
pub open spec fn add_run(state: AppStateView, incoming: OrderView, outcomes: Seq<Outcome>) -> AddRun {
    let first = add_order_step(state, incoming);
    add_run_from(first.0, first.1, outcomes)
}

proof fn lemma_add_run_from(state: AppStateView, incoming: OrderView, outcomes: Seq<Outcome>)
    requires
        state.orders.len() > 0,
    ensures
        ({
            let first = drain_next(state, incoming);
            let run = add_run_from(first.0, first.1, outcomes);
            let failed = first_failure(outcomes);
            let resident = state.orders.len();
            if failed >= resident {
                &&& run.state == (AppStateView { orders: seq![incoming], capacity: state.capacity })
                &&& run.saved == state.orders
                &&& run.result == Some(Ok::<(), Seq<char>>(()))
            } else {
                &&& run.state == (AppStateView {
                    orders: state.orders.skip(failed + 1),
                    capacity: state.capacity,
                })
                &&& run.saved == state.orders.take(failed + 1)
                &&& run.result == if failed < outcomes.len() {
                    Some(outcomes[failed])
                } else {
                    None
                }
            }
        }),
    decreases outcomes.len(),
{
    let first = drain_next(state, incoming);
    let run = add_run_from(first.0, first.1, outcomes);
    let failed = first_failure(outcomes);
    let resident = state.orders.len();
    let rest_state = state.without_oldest();
    lemma_first_failure(outcomes);
    reveal_with_fuel(add_run_from, 2);
    if outcomes.len() == 0 {
        assert(run.state.orders =~= state.orders.skip(1));
        assert(run.saved =~= state.orders.take(1));
    } else if outcomes[0] is Err {
        assert(run.state.orders =~= state.orders.skip(1));
        assert(run.saved =~= state.orders.take(1));
    } else if resident == 1 {
        assert(rest_state.orders.len() == 0);
        let after = order_saved_step(rest_state, incoming, outcomes[0]);
        assert(after.1 == AddStepView::Done(Ok(())));
        assert(after.0.orders =~= seq![incoming]);
        assert(run.saved =~= state.orders);
    } else {
        let rest = outcomes.skip(1);
        lemma_add_run_from(rest_state, incoming, rest);
        lemma_first_failure(rest);
        let tail = add_run_from(drain_next(rest_state, incoming).0, drain_next(rest_state, incoming).1, rest);
        assert(run.saved == seq![state.orders[0]] + tail.saved);
        assert(run.state == tail.state);
        if failed >= resident {
            assert(run.saved =~= state.orders);
        } else {
            assert(run.state.orders =~= state.orders.skip(failed + 1));
            assert(run.saved =~= state.orders.take(failed + 1));
            if failed < outcomes.len() {
                assert(outcomes[failed] == rest[failed - 1]);
            }
        }
    }
}

/// What a whole call comes to. Below capacity nothing is saved and the order
/// is admitted. At capacity the resident orders are saved oldest first, up
/// to and with the first whose save fails: when all are saved the buffer
/// holds the incoming order alone, and when one fails the call ends with that
/// failure, the orders behind the failed one stay, and the incoming order is
/// not admitted.
pub proof fn lemma_add_run(state: AppStateView, incoming: OrderView, outcomes: Seq<Outcome>)
    requires
        state.wf(),
    ensures
        ({
            let run = add_run(state, incoming, outcomes);
            let failed = first_failure(outcomes);
            let resident = state.orders.len();
            if resident < state.capacity {
                &&& run.state == state.with_newest(incoming)
                &&& run.saved == Seq::<OrderView>::empty()
                &&& run.result == Some(Ok::<(), Seq<char>>(()))
            } else if failed >= resident {
                &&& run.state == (AppStateView { orders: seq![incoming], capacity: state.capacity })
                &&& run.saved == state.orders
                &&& run.result == Some(Ok::<(), Seq<char>>(()))
            } else {
                &&& run.state == (AppStateView {
                    orders: state.orders.skip(failed + 1),
                    capacity: state.capacity,
                })
                &&& run.saved == state.orders.take(failed + 1)
                &&& run.result == if failed < outcomes.len() {
                    Some(outcomes[failed])
                } else {
                    None
                }
                &&& failed < outcomes.len() ==> outcomes[failed] is Err
            }
        }),
{
    lemma_first_failure(outcomes);
    if state.orders.len() >= state.capacity {
        lemma_add_run_from(state, incoming, outcomes);
    }
}

/// After a call, and at every point within one, the resident orders are no
/// more than the capacity.
pub proof fn lemma_add_keeps_capacity(state: AppStateView, incoming: OrderView, outcomes: Seq<Outcome>)
    requires
        state.wf(),
    ensures
        add_run(state, incoming, outcomes).state.wf(),
        add_run(state, incoming, outcomes).state.capacity == state.capacity,
{
    lemma_add_run(state, incoming, outcomes);
    lemma_first_failure(outcomes);
}

/// The orders that a call asks to be saved are the resident orders from the
/// oldest on, in the order in which they were admitted, none left out and
/// none twice; and a save is asked for only when the buffer is at capacity.
pub proof fn lemma_flush_is_oldest_first(state: AppStateView, incoming: OrderView, outcomes: Seq<Outcome>)
    requires
        state.wf(),
    ensures
        ({
            let run = add_run(state, incoming, outcomes);
            &&& run.saved.len() <= state.orders.len()
            &&& run.saved == state.orders.take(run.saved.len() as int)
            &&& run.saved.len() > 0 <==> state.orders.len() >= state.capacity
            &&& run.result == Some(Ok::<(), Seq<char>>(())) && run.saved.len() > 0 ==> run.saved
                == state.orders
        }),
{
    lemma_add_run(state, incoming, outcomes);
    lemma_first_failure(outcomes);
    let run = add_run(state, incoming, outcomes);
    if state.orders.len() < state.capacity {
        assert(run.saved =~= state.orders.take(0));
    } else if first_failure(outcomes) >= state.orders.len() {
        assert(run.saved =~= state.orders.take(state.orders.len() as int));
    }
}

/// Until a call has ended well, the incoming order is not resident: what is
/// resident is what was resident before, without the orders handed out to be
/// saved. So the order that a read gives is one that was resident before the
/// call, or none; and when the call fails it is the newest of the orders
/// before the call, unless the failed save was that of the newest itself.
pub proof fn lemma_incoming_waits_for_flush(state: AppStateView, incoming: OrderView, outcomes: Seq<Outcome>)
    requires
        state.wf(),
    ensures
        ({
            let run = add_run(state, incoming, outcomes);
            run.result != Some(Ok::<(), Seq<char>>(())) ==> {
                &&& state.orders.len() >= state.capacity
                &&& run.state.orders == state.orders.skip(run.saved.len() as int)
                &&& run.state.last_order() == if run.saved.len() < state.orders.len() {
                    state.last_order()
                } else {
                    None
                }
            }
        }),
{
    lemma_add_run(state, incoming, outcomes);
    lemma_first_failure(outcomes);
}

/// Once a call has ended well, a read gives the order that the call added.
pub proof fn lemma_read_is_fresh(state: AppStateView, incoming: OrderView, outcomes: Seq<Outcome>)
    requires
        state.wf(),
    ensures
        add_run(state, incoming, outcomes).result == Some(Ok::<(), Seq<char>>(())) ==> add_run(
            state,
            incoming,
            outcomes,
        ).state.last_order() == Some(incoming),
{
    lemma_add_run(state, incoming, outcomes);
    lemma_first_failure(outcomes);
}

/// The buffer after a series of calls, each with the outcomes of its saves:
/// the orders in `incoming` are added one after the other, the first first.
pub open spec fn adds_run(
    state: AppStateView,
    incoming: Seq<OrderView>,
    outcomes: Seq<Seq<Outcome>>,
) -> AppStateView
    decreases incoming.len(),
{
    if incoming.len() == 0 {
        state
    } else {
        add_run(
            adds_run(state, incoming.drop_last(), outcomes.drop_last()),
            incoming.last(),
            outcomes.last(),
        ).state
    }
}

/// Whatever orders are added and however their saves end, the resident
/// orders are never more than the capacity, and the capacity stays what it
/// was.
pub proof fn lemma_adds_keep_capacity(
    state: AppStateView,
    incoming: Seq<OrderView>,
    outcomes: Seq<Seq<Outcome>>,
)
    requires
        state.wf(),
    ensures
        adds_run(state, incoming, outcomes).wf(),
        adds_run(state, incoming, outcomes).capacity == state.capacity,
    decreases incoming.len(),
{
    if incoming.len() > 0 {
        lemma_adds_keep_capacity(state, incoming.drop_last(), outcomes.drop_last());
        lemma_add_keeps_capacity(
            adds_run(state, incoming.drop_last(), outcomes.drop_last()),
            incoming.last(),
            outcomes.last(),
        );
    }
}

} // verus!
