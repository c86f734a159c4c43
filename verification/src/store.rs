//! A model of the four relations, to say what the statements of a save are
//! written to mean: which rows stand in which relation once the store has
//! accepted them.
//!
//! The store itself is outside this library. What is proved here is proved
//! of the statements and of this model, not of a database.

use vstd::prelude::*;
use crate::gateway::{
    delivery_row, item_row, order_row, payment_row, save_plan, Relation, SqlValueView,
    StatementView,
};
use crate::order::OrderView;

verus! {

/// One row: its values, column by column.
pub type Row = Seq<SqlValueView>;

/// The rows of the four relations, each in the order in which they came.
pub ghost struct Store {
    pub orders: Seq<Row>,
    pub deliveries: Seq<Row>,
    pub payments: Seq<Row>,
    pub items: Seq<Row>,
}

/// The rows of an order's items, in the sequence of the items.
pub open spec fn item_rows(order: OrderView) -> Seq<Row> {
    Seq::new(order.items.len(), |i: int| item_row(order.order_uid, order.items[i]))
}

impl Store {
    /// A payment with this transaction is recorded.
    pub open spec fn holds_payment(self, transaction: SqlValueView) -> bool {
        exists|i: int| 0 <= i < self.payments.len() && #[trigger] self.payments[i][0] == transaction
    }

    /// No two recorded payments have the same transaction.
    pub open spec fn payments_unique(self) -> bool {
        forall|i: int, j: int|
            0 <= i < j < self.payments.len() ==> #[trigger] self.payments[i][0]
                != #[trigger] self.payments[j][0]
    }

    /// The store after it has accepted one statement. An insert adds its row
    /// at the end of its relation; the insert of a payment whose transaction
    /// is recorded already changes nothing.
    pub open spec fn record(self, statement: StatementView) -> Store {
        match statement.relation {
            Relation::Orders => Store { orders: self.orders.push(statement.params), ..self },
            Relation::Deliveries => Store {
                deliveries: self.deliveries.push(statement.params),
                ..self
            },
            Relation::Payments => if self.holds_payment(statement.params[0]) {
                self
            } else {
                Store { payments: self.payments.push(statement.params), ..self }
            },
            Relation::Items => Store { items: self.items.push(statement.params), ..self },
        }
    }

    /// The store after it has accepted the statements one after the other.
    pub open spec fn record_all(self, statements: Seq<StatementView>) -> Store
        decreases statements.len(),
    {
        if statements.len() == 0 {
            self
        } else {
            self.record_all(statements.drop_last()).record(statements.last())
        }
    }

    /// The store after the whole save of an order.
    pub open spec fn save(self, order: OrderView) -> Store {
        self.record_all(save_plan(order))
    }
}

proof fn lemma_record_plan_prefix(store: Store, order: OrderView, sent: int)
    requires
        3 <= sent <= save_plan(order).len(),
    ensures
        store.record_all(save_plan(order).take(sent)) == (Store {
            orders: store.orders.push(order_row(order)),
            deliveries: store.deliveries.push(delivery_row(order)),
            payments: if store.holds_payment(SqlValueView::Text(order.payment.transaction)) {
                store.payments
            } else {
                store.payments.push(payment_row(order))
            },
            items: store.items + item_rows(order).take(sent - 3),
        }),
    decreases sent,
{
    let plan = save_plan(order);
    let after = store.record_all(plan.take(sent));
    if sent == 3 {
        let none = plan.take(0);
        let one = plan.take(1);
        let two = plan.take(2);
        let three = plan.take(3);
        assert(store.record_all(none) == store);
        assert(one.drop_last() =~= none && one.last() == plan[0]);
        assert(store.record_all(one) == store.record(plan[0]));
        assert(two.drop_last() =~= one && two.last() == plan[1]);
        assert(store.record_all(two) == store.record(plan[0]).record(plan[1]));
        assert(three.drop_last() =~= two && three.last() == plan[2]);
        assert(after == store.record(plan[0]).record(plan[1]).record(plan[2]));
        assert(payment_row(order)[0] == SqlValueView::Text(order.payment.transaction));
        assert(store.record(plan[0]).record(plan[1]).payments == store.payments);
        assert(after.items =~= store.items + item_rows(order).take(0));
    } else {
        lemma_record_plan_prefix(store, order, sent - 1);
        let longer = plan.take(sent);
        assert(longer.drop_last() =~= plan.take(sent - 1) && longer.last() == plan[sent - 1]);
        assert(after == store.record_all(plan.take(sent - 1)).record(plan[sent - 1]));
        assert(after.items =~= store.items + item_rows(order).take(sent - 3));
    }
}

/// A save that the store accepts in full adds the order's own row, its
/// delivery and its items, the items in their sequence, and adds its payment
/// unless a payment with the same transaction is there already.
pub proof fn lemma_save_records_order(store: Store, order: OrderView)
    ensures
        store.save(order) == (Store {
            orders: store.orders.push(order_row(order)),
            deliveries: store.deliveries.push(delivery_row(order)),
            payments: if store.holds_payment(SqlValueView::Text(order.payment.transaction)) {
                store.payments
            } else {
                store.payments.push(payment_row(order))
            },
            items: store.items + item_rows(order),
        }),
{
    let plan = save_plan(order);
    lemma_record_plan_prefix(store, order, plan.len() as int);
    assert(plan.take(plan.len() as int) =~= plan);
    assert(item_rows(order).take(plan.len() - 3) =~= item_rows(order));
}

/// After a save the order's payment is recorded, and where no transaction
/// was recorded twice before, none is afterwards.
pub proof fn lemma_save_keeps_payments_unique(store: Store, order: OrderView)
    requires
        store.payments_unique(),
    ensures
        store.save(order).payments_unique(),
        store.save(order).holds_payment(SqlValueView::Text(order.payment.transaction)),
{
    lemma_save_records_order(store, order);
    let key = SqlValueView::Text(order.payment.transaction);
    let after = store.save(order);
    if store.holds_payment(key) {
    } else {
        let last = store.payments.len() as int;
        assert(after.payments[last][0] == key);
        assert forall|i: int, j: int| 0 <= i < j < after.payments.len() implies #[trigger] after.payments[i][0]
            != #[trigger] after.payments[j][0] by {
            assert(after.payments[i] == store.payments[i]);
            if j < last {
                assert(after.payments[j] == store.payments[j]);
            }
        }
    }
}

/// Two orders that share one payment: when both are saved, the rows of both
/// orders, of both deliveries and of all their items are recorded, and the
/// payment once, as the first of the two saves recorded it.
pub proof fn lemma_shared_payment_is_recorded_once(store: Store, first: OrderView, second: OrderView)
    requires
        first.payment.transaction == second.payment.transaction,
        !store.holds_payment(SqlValueView::Text(first.payment.transaction)),
    ensures
        store.save(first).save(second) == (Store {
            orders: store.orders.push(order_row(first)).push(order_row(second)),
            deliveries: store.deliveries.push(delivery_row(first)).push(delivery_row(second)),
            payments: store.payments.push(payment_row(first)),
            items: store.items + item_rows(first) + item_rows(second),
        }),
{
    lemma_save_records_order(store, first);
    let between = store.save(first);
    lemma_save_records_order(between, second);
    let last = store.payments.len() as int;
    assert(between.payments[last][0] == SqlValueView::Text(second.payment.transaction));
    assert(between.holds_payment(SqlValueView::Text(second.payment.transaction)));
}

} // verus!
