//! Saving one order: the statements that record it in the four relations, in
//! the order in which they are sent, and what each outcome leads to.
//!
//! Nothing here talks to a store. A save hands out one statement at a time;
//! whoever holds the connection executes it and reports the outcome back.

use vstd::prelude::*;
use crate::order::{Item, ItemView, Order, OrderView};

verus! {

/// The four relations that hold an order.
#[derive(Clone, Copy, Debug, PartialEq, Eq, Structural)]
pub enum Relation {
    /// One row per order, keyed by the order's identifier.
    Orders,
    /// One row per order: its delivery.
    Deliveries,
    /// One row per payment transaction, keyed by the transaction's identifier.
    Payments,
    /// One row per item of an order.
    Items,
}

/// The text of the statement that inserts one row into a relation.
///
/// A payment whose transaction is already recorded is left as it is: several
/// orders may share one payment, and the second insert changes nothing.
pub open spec fn insert_sql(relation: Relation) -> Seq<char> {
    match relation {
        Relation::Orders => "INSERT INTO orders (order_uid, track_number, entry, locale, internal_signature, customer_id, delivery_service, shardkey, sm_id, date_created, oof_shard) VALUES ($1, $2, $3, $4, $5, $6, $7, $8, $9, $10, $11)"@,
        Relation::Deliveries => "INSERT INTO deliveries (order_uid, name, phone, zip, city, address, region, email) VALUES ($1, $2, $3, $4, $5, $6, $7, $8)"@,
        Relation::Payments => "INSERT INTO payments (transaction_id, request_id, currency, provider, amount, payment_dt, bank, delivery_cost, goods_total, custom_fee) VALUES ($1, $2, $3, $4, $5, $6, $7, $8, $9, $10) ON CONFLICT (transaction_id) DO NOTHING"@,
        Relation::Items => "INSERT INTO items (order_uid, chrt_id, track_number, price, rid, name, sale, size, total_price, nm_id, brand, status) VALUES ($1, $2, $3, $4, $5, $6, $7, $8, $9, $10, $11, $12)"@,
    }
}

impl Relation {
    /// The text of the statement that inserts one row into this relation.
    pub fn sql(&self) -> (text: &'static str)
        ensures
            text@ == insert_sql(*self),
    {
        match self {
            Relation::Orders => "INSERT INTO orders (order_uid, track_number, entry, locale, internal_signature, customer_id, delivery_service, shardkey, sm_id, date_created, oof_shard) VALUES ($1, $2, $3, $4, $5, $6, $7, $8, $9, $10, $11)",
            Relation::Deliveries => "INSERT INTO deliveries (order_uid, name, phone, zip, city, address, region, email) VALUES ($1, $2, $3, $4, $5, $6, $7, $8)",
            Relation::Payments => "INSERT INTO payments (transaction_id, request_id, currency, provider, amount, payment_dt, bank, delivery_cost, goods_total, custom_fee) VALUES ($1, $2, $3, $4, $5, $6, $7, $8, $9, $10) ON CONFLICT (transaction_id) DO NOTHING",
            Relation::Items => "INSERT INTO items (order_uid, chrt_id, track_number, price, rid, name, sale, size, total_price, nm_id, brand, status) VALUES ($1, $2, $3, $4, $5, $6, $7, $8, $9, $10, $11, $12)",
        }
    }
}

/// One value of a row, as the store takes it.
#[derive(Debug, PartialEq, Eq)]
pub enum SqlValue {
    /// A text column.
    Text(String),
    /// A 32-bit integer column.
    Int(i32),
    /// A 64-bit integer column.
    BigInt(i64),
}

/// The mathematical value of a [`SqlValue`].
pub ghost enum SqlValueView {
    Text(Seq<char>),
    Int(i32),
    BigInt(i64),
}

impl View for SqlValue {
    type V = SqlValueView;

    open spec fn view(&self) -> SqlValueView {
        match self {
            SqlValue::Text(s) => SqlValueView::Text(s@),
            SqlValue::Int(n) => SqlValueView::Int(*n),
            SqlValue::BigInt(n) => SqlValueView::BigInt(*n),
        }
    }
}

/// The values of a row, column by column.
pub open spec fn row_view(row: Seq<SqlValue>) -> Seq<SqlValueView> {
    Seq::new(row.len(), |i: int| row[i]@)
}

/// The insert of one row into one relation.
#[derive(Debug, PartialEq, Eq)]
pub struct Statement {
    /// The relation that takes the row.
    pub relation: Relation,
    /// The row, in the order of the relation's columns.
    pub params: Vec<SqlValue>,
}

/// The mathematical value of a [`Statement`].
pub ghost struct StatementView {
    pub relation: Relation,
    pub params: Seq<SqlValueView>,
}

impl View for Statement {
    type V = StatementView;

    open spec fn view(&self) -> StatementView {
        StatementView { relation: self.relation, params: row_view(self.params@) }
    }
}

impl Statement {
    /// The text of this statement, with one placeholder per value of the row.
    pub fn sql(&self) -> (text: &'static str)
        ensures
            text@ == insert_sql(self.relation),
    {
        self.relation.sql()
    }
}

/// The row of an order's own fields.
pub open spec fn order_row(order: OrderView) -> Seq<SqlValueView> {
    seq![
        SqlValueView::Text(order.order_uid),
        SqlValueView::Text(order.track_number),
        SqlValueView::Text(order.entry),
        SqlValueView::Text(order.locale),
        SqlValueView::Text(order.internal_signature),
        SqlValueView::Text(order.customer_id),
        SqlValueView::Text(order.delivery_service),
        SqlValueView::Text(order.shardkey),
        SqlValueView::Int(order.sm_id),
        SqlValueView::Text(order.date_created),
        SqlValueView::Text(order.oof_shard),
    ]
}

/// The row of an order's delivery, which starts with the order's identifier.
pub open spec fn delivery_row(order: OrderView) -> Seq<SqlValueView> {
    seq![
        SqlValueView::Text(order.order_uid),
        SqlValueView::Text(order.delivery.name),
        SqlValueView::Text(order.delivery.phone),
        SqlValueView::Text(order.delivery.zip),
        SqlValueView::Text(order.delivery.city),
        SqlValueView::Text(order.delivery.address),
        SqlValueView::Text(order.delivery.region),
        SqlValueView::Text(order.delivery.email),
    ]
}

/// The row of an order's payment, which starts with the transaction's identifier.
pub open spec fn payment_row(order: OrderView) -> Seq<SqlValueView> {
    seq![
        SqlValueView::Text(order.payment.transaction),
        SqlValueView::Text(order.payment.request_id),
        SqlValueView::Text(order.payment.currency),
        SqlValueView::Text(order.payment.provider),
        SqlValueView::Int(order.payment.amount),
        SqlValueView::BigInt(order.payment.payment_dt),
        SqlValueView::Text(order.payment.bank),
        SqlValueView::Int(order.payment.delivery_cost),
        SqlValueView::Int(order.payment.goods_total),
        SqlValueView::BigInt(order.payment.custom_fee),
    ]
}

/// The row of one item of the order with the given identifier.
pub open spec fn item_row(order_uid: Seq<char>, item: ItemView) -> Seq<SqlValueView> {
    seq![
        SqlValueView::Text(order_uid),
        SqlValueView::BigInt(item.chrt_id),
        SqlValueView::Text(item.track_number),
        SqlValueView::Int(item.price),
        SqlValueView::Text(item.rid),
        SqlValueView::Text(item.name),
        SqlValueView::Int(item.sale),
        SqlValueView::Text(item.size),
        SqlValueView::Int(item.total_price),
        SqlValueView::BigInt(item.nm_id),
        SqlValueView::Text(item.brand),
        SqlValueView::BigInt(item.status),
    ]
}

/// The statement that records an order's own fields.
pub open spec fn order_insert(order: OrderView) -> StatementView {
    StatementView { relation: Relation::Orders, params: order_row(order) }
}

/// The statement that records an order's delivery.
pub open spec fn delivery_insert(order: OrderView) -> StatementView {
    StatementView { relation: Relation::Deliveries, params: delivery_row(order) }
}

/// The statement that records an order's payment.
pub open spec fn payment_insert(order: OrderView) -> StatementView {
    StatementView { relation: Relation::Payments, params: payment_row(order) }
}

/// The statement that records the item at `index` of an order.
pub open spec fn item_insert(order: OrderView, index: int) -> StatementView {
    StatementView { relation: Relation::Items, params: item_row(order.order_uid, order.items[index]) }
}

/// Everything that saving an order sends, in the order in which it is sent:
/// the order's own row, its delivery, its payment, then one row per item, the
/// items in the sequence in which the order holds them.
pub open spec fn save_plan(order: OrderView) -> Seq<StatementView> {
    Seq::new(
        3 + order.items.len(),
        |i: int|
            if i == 0 {
                order_insert(order)
            } else if i == 1 {
                delivery_insert(order)
            } else if i == 2 {
                payment_insert(order)
            } else {
                item_insert(order, i - 3)
            },
    )
}

fn text(s: &String) -> (v: SqlValue)
    ensures
        v@ == SqlValueView::Text(s@),
{
    SqlValue::Text(s.clone())
}

/// Builds the statement that records an order's own fields.
pub fn insert_order(order: &Order) -> (statement: Statement)
    ensures
        statement@ == order_insert(order@),
{
    let mut params: Vec<SqlValue> = Vec::new();
    params.push(text(&order.order_uid));
    params.push(text(&order.track_number));
    params.push(text(&order.entry));
    params.push(text(&order.locale));
    params.push(text(&order.internal_signature));
    params.push(text(&order.customer_id));
    params.push(text(&order.delivery_service));
    params.push(text(&order.shardkey));
    params.push(SqlValue::Int(order.sm_id));
    params.push(text(&order.date_created));
    params.push(text(&order.oof_shard));
    assert(row_view(params@) =~= order_row(order@));
    Statement { relation: Relation::Orders, params }
}

/// Builds the statement that records an order's delivery.
pub fn insert_delivery(order: &Order) -> (statement: Statement)
    ensures
        statement@ == delivery_insert(order@),
{
    let mut params: Vec<SqlValue> = Vec::new();
    params.push(text(&order.order_uid));
    params.push(text(&order.delivery.name));
    params.push(text(&order.delivery.phone));
    params.push(text(&order.delivery.zip));
    params.push(text(&order.delivery.city));
    params.push(text(&order.delivery.address));
    params.push(text(&order.delivery.region));
    params.push(text(&order.delivery.email));
    assert(row_view(params@) =~= delivery_row(order@));
    Statement { relation: Relation::Deliveries, params }
}

/// Builds the statement that records an order's payment.
pub fn insert_payment(order: &Order) -> (statement: Statement)
    ensures
        statement@ == payment_insert(order@),
{
    let mut params: Vec<SqlValue> = Vec::new();
    params.push(text(&order.payment.transaction));
    params.push(text(&order.payment.request_id));
    params.push(text(&order.payment.currency));
    params.push(text(&order.payment.provider));
    params.push(SqlValue::Int(order.payment.amount));
    params.push(SqlValue::BigInt(order.payment.payment_dt));
    params.push(text(&order.payment.bank));
    params.push(SqlValue::Int(order.payment.delivery_cost));
    params.push(SqlValue::Int(order.payment.goods_total));
    params.push(SqlValue::BigInt(order.payment.custom_fee));
    assert(row_view(params@) =~= payment_row(order@));
    Statement { relation: Relation::Payments, params }
}

/// Builds the statement that records the item at `index` of an order.
pub fn insert_item(order: &Order, index: usize) -> (statement: Statement)
    requires
        index < order.items.len(),
    ensures
        statement@ == item_insert(order@, index as int),
{
    let item: &Item = &order.items[index];
    let mut params: Vec<SqlValue> = Vec::new();
    params.push(text(&order.order_uid));
    params.push(SqlValue::BigInt(item.chrt_id));
    params.push(text(&item.track_number));
    params.push(SqlValue::Int(item.price));
    params.push(text(&item.rid));
    params.push(text(&item.name));
    params.push(SqlValue::Int(item.sale));
    params.push(text(&item.size));
    params.push(SqlValue::Int(item.total_price));
    params.push(SqlValue::BigInt(item.nm_id));
    params.push(text(&item.brand));
    params.push(SqlValue::BigInt(item.status));
    assert(row_view(params@) =~= item_row(order@.order_uid, order@.items[index as int]));
    Statement { relation: Relation::Items, params }
}

/// Why a save failed: what the store reported.
#[derive(Debug, PartialEq, Eq)]
pub struct PersistError {
    /// The store's own words.
    pub cause: String,
}

impl View for PersistError {
    type V = Seq<char>;

    open spec fn view(&self) -> Seq<char> {
        self.cause@
    }
}

/// How one statement, or one whole save, ended: well, or with the store's
/// report of what went wrong.
pub type Outcome = Result<(), Seq<char>>;

/// The mathematical value of an outcome.
pub open spec fn outcome_view(outcome: Result<(), PersistError>) -> Outcome {
    match outcome {
        Ok(_) => Ok(()),
        Err(e) => Err(e@),
    }
}

/// What a save asks for next.
#[derive(Debug, PartialEq, Eq)]
pub enum SaveStep {
    /// Execute this statement and report its outcome.
    Execute(Statement),
    /// The save is over, with this result.
    Done(Result<(), PersistError>),
}

/// The mathematical value of a [`SaveStep`].
pub ghost enum SaveStepView {
    Execute(StatementView),
    Done(Outcome),
}

impl View for SaveStep {
    type V = SaveStepView;

    open spec fn view(&self) -> SaveStepView {
        match self {
            SaveStep::Execute(statement) => SaveStepView::Execute(statement@),
            SaveStep::Done(result) => SaveStepView::Done(outcome_view(*result)),
        }
    }
}

#[derive(Clone, Copy, Debug)]
enum Stage {
    Order,
    Delivery,
    Payment,
    Item(usize),
}

/// A save in progress: the order, and how far its statements have got.
///
/// There is no transaction round the statements of a save. When one fails,
/// those before it stay recorded and those after it are never sent.
#[derive(Debug)]
pub struct Save {
    order: Order,
    stage: Stage,
}

/// The mathematical value of a [`Save`].
pub ghost struct SaveView {
    /// The order that is being saved.
    pub order: OrderView,
    /// The place in the order's plan of the statement handed out last.
    pub cursor: int,
}

impl SaveView {
    /// The cursor points into the plan.
    pub open spec fn wf(self) -> bool {
        0 <= self.cursor < save_plan(self.order).len()
    }
}

/// What one outcome leads to. A failure ends the save with that failure and
/// nothing is undone. A success moves on to the next statement of the plan,
/// or ends the save well when the plan is through.
pub open spec fn save_step(save: SaveView, outcome: Outcome) -> (SaveView, SaveStepView) {
    match outcome {
        Err(cause) => (save, SaveStepView::Done(Err(cause))),
        Ok(_) => if save.cursor + 1 < save_plan(save.order).len() {
            (
                SaveView { order: save.order, cursor: save.cursor + 1 },
                SaveStepView::Execute(save_plan(save.order)[save.cursor + 1]),
            )
        } else {
            (save, SaveStepView::Done(Ok(())))
        },
    }
}

impl View for Save {
    type V = SaveView;

    closed spec fn view(&self) -> SaveView {
        SaveView {
            order: self.order@,
            cursor: match self.stage {
                Stage::Order => 0,
                Stage::Delivery => 1,
                Stage::Payment => 2,
                Stage::Item(index) => 3 + index,
            },
        }
    }
}

impl Save {
    #[verifier::type_invariant]
    spec fn inv(self) -> bool {
        self.stage matches Stage::Item(index) ==> index < self.order.items.len()
    }

    /// Starts to save an order. The first statement of its plan comes back
    /// with the save.
    pub fn begin(order: Order) -> (started: (Save, Statement))
        ensures
            started.0@ == (SaveView { order: order@, cursor: 0 }),
            started.0@.wf(),
            started.1@ == save_plan(order@)[0],
    {
        let first = insert_order(&order);
        (Save { order, stage: Stage::Order }, first)
    }

    /// Takes the outcome of the statement handed out last and says what
    /// follows from it.
    pub fn resume(&mut self, outcome: Result<(), PersistError>) -> (step: SaveStep)
        ensures
            (final(self)@, step@) == save_step(old(self)@, outcome_view(outcome)),
            old(self)@.wf(),
            final(self)@.wf(),
    {
        proof {
            use_type_invariant(&*self);
        }
        match outcome {
            Err(e) => SaveStep::Done(Err(e)),
            Ok(_) => {
                match self.stage {
                    Stage::Order => {
                        self.stage = Stage::Delivery;
                        SaveStep::Execute(insert_delivery(&self.order))
                    },
                    Stage::Delivery => {
                        self.stage = Stage::Payment;
                        SaveStep::Execute(insert_payment(&self.order))
                    },
                    Stage::Payment => {
                        if self.order.items.len() > 0 {
                            self.stage = Stage::Item(0);
                            SaveStep::Execute(insert_item(&self.order, 0))
                        } else {
                            SaveStep::Done(Ok(()))
                        }
                    },
                    Stage::Item(index) => {
                        if index + 1 < self.order.items.len() {
                            self.stage = Stage::Item(index + 1);
                            SaveStep::Execute(insert_item(&self.order, index + 1))
                        } else {
                            SaveStep::Done(Ok(()))
                        }
                    },
                }
            },
        }
    }
}

/// A save seen from outside: the statements it handed out, first to last,
/// and its result once it has one.
pub ghost struct SaveRun {
    pub sent: Seq<StatementView>,
    pub result: Option<Outcome>,
}

/// The place of the first failure among the outcomes, or their number where
/// none is a failure.
pub open spec fn first_failure(outcomes: Seq<Outcome>) -> int
    decreases outcomes.len(),
{
    if outcomes.len() == 0 {
        0
    } else if outcomes[0] is Err {
        0
    } else {
        1 + first_failure(outcomes.skip(1))
    }
}

/// A save that stands at `save`, fed the outcomes one after the other until
/// it ends or they run out.
pub open spec fn save_run_from(save: SaveView, outcomes: Seq<Outcome>) -> SaveRun
    decreases outcomes.len(),
{
    if outcomes.len() == 0 {
        SaveRun { sent: Seq::empty(), result: None }
    } else {
        let after = save_step(save, outcomes[0]);
        match after.1 {
            SaveStepView::Execute(statement) => {
                let rest = save_run_from(after.0, outcomes.skip(1));
                SaveRun { sent: seq![statement] + rest.sent, result: rest.result }
            },
            SaveStepView::Done(result) => SaveRun { sent: Seq::empty(), result: Some(result) },
        }
    }
}

/// The save of an order from its start, fed the outcomes one after the other.
pub open spec fn save_run(order: OrderView, outcomes: Seq<Outcome>) -> SaveRun {
    let rest = save_run_from(SaveView { order, cursor: 0 }, outcomes);
    SaveRun { sent: seq![save_plan(order)[0]] + rest.sent, result: rest.result }
}

/// The first failure lies within the outcomes, and every outcome before it is
/// a success.
pub proof fn lemma_first_failure(outcomes: Seq<Outcome>)
    ensures
        0 <= first_failure(outcomes) <= outcomes.len(),
        first_failure(outcomes) < outcomes.len() ==> outcomes[first_failure(outcomes)] is Err,
        forall|i: int| 0 <= i < first_failure(outcomes) ==> outcomes[i] is Ok,
    decreases outcomes.len(),
{
    if outcomes.len() > 0 && outcomes[0] is Ok {
        let rest = outcomes.skip(1);
        lemma_first_failure(rest);
        assert forall|i: int| 0 <= i < first_failure(outcomes) implies outcomes[i] is Ok by {
            if i > 0 {
                assert(outcomes[i] == rest[i - 1]);
            }
        }
    }
}

proof fn lemma_save_run_from(save: SaveView, outcomes: Seq<Outcome>)
    requires
        save.wf(),
    ensures
        ({
            let plan = save_plan(save.order);
            let failed = first_failure(outcomes);
            let run = save_run_from(save, outcomes);
            let stop = save.cursor + 1 + failed;
            if stop > plan.len() {
                &&& run.sent == plan.subrange(save.cursor + 1, plan.len() as int)
                &&& run.result == Some(Ok::<(), Seq<char>>(()))
            } else if failed < outcomes.len() {
                &&& run.sent == plan.subrange(save.cursor + 1, stop)
                &&& run.result == Some(outcomes[failed])
            } else {
                &&& run.sent == plan.subrange(save.cursor + 1, stop)
                &&& run.result is None
            }
        }),
    decreases outcomes.len(),
{
    let plan = save_plan(save.order);
    let failed = first_failure(outcomes);
    let run = save_run_from(save, outcomes);
    let stop = save.cursor + 1 + failed;
    lemma_first_failure(outcomes);
    if outcomes.len() == 0 {
        assert(run.sent =~= plan.subrange(save.cursor + 1, stop));
    } else if outcomes[0] is Err {
        assert(run.sent =~= plan.subrange(save.cursor + 1, stop));
    } else if save.cursor + 1 < plan.len() {
        let next = SaveView { order: save.order, cursor: save.cursor + 1 };
        let rest = outcomes.skip(1);
        lemma_save_run_from(next, rest);
        lemma_first_failure(rest);
        let tail = save_run_from(next, rest);
        assert(run.sent == seq![plan[save.cursor + 1]] + tail.sent);
        if stop > plan.len() {
            assert(run.sent =~= plan.subrange(save.cursor + 1, plan.len() as int));
        } else {
            assert(run.sent =~= plan.subrange(save.cursor + 1, stop));
            if failed < outcomes.len() {
                assert(outcomes[failed] == rest[failed - 1]);
            }
        }
    } else {
        assert(run.sent =~= plan.subrange(save.cursor + 1, plan.len() as int));
    }
}

/// The statements of a save are those of the order's plan, in the plan's
/// order, up to and with the first that fails; the save ends with that
/// failure, or well once the whole plan has succeeded. Nothing is sent after
/// a failure and nothing is sent twice.
pub proof fn lemma_save_follows_plan(order: OrderView, outcomes: Seq<Outcome>)
    ensures
        ({
            let plan = save_plan(order);
            let failed = first_failure(outcomes);
            let run = save_run(order, outcomes);
            if failed >= plan.len() {
                &&& run.sent == plan
                &&& run.result == Some(Ok::<(), Seq<char>>(()))
            } else if failed < outcomes.len() {
                &&& run.sent == plan.take(failed + 1)
                &&& run.result == Some(outcomes[failed])
                &&& outcomes[failed] is Err
            } else {
                &&& run.sent == plan.take(failed + 1)
                &&& run.result is None
            }
        }),
{
    let plan = save_plan(order);
    let failed = first_failure(outcomes);
    let run = save_run(order, outcomes);
    lemma_first_failure(outcomes);
    lemma_save_run_from(SaveView { order, cursor: 0 }, outcomes);
    if failed >= plan.len() {
        assert(run.sent =~= plan);
    } else {
        assert(run.sent =~= plan.take(failed + 1));
    }
}

} // verus!
