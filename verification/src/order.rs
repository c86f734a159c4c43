//! The order record and its embedded parts.
//!
//! An order is passed through as it was received: no field is computed from
//! another, and nothing relates the numeric fields to each other.

use vstd::prelude::*;

verus! {

/// Where and to whom an order is delivered.
#[derive(Debug, PartialEq, Eq)]
pub struct Delivery {
    /// Name of the recipient.
    pub name: String,
    /// Phone number of the recipient.
    pub phone: String,
    /// Postal code of the recipient's address.
    pub zip: String,
    /// City of the recipient.
    pub city: String,
    /// Full address of the recipient.
    pub address: String,
    /// Region or state where the recipient is located.
    pub region: String,
    /// Email address of the recipient.
    pub email: String,
}

/// The mathematical value of a [`Delivery`].
pub ghost struct DeliveryView {
    pub name: Seq<char>,
    pub phone: Seq<char>,
    pub zip: Seq<char>,
    pub city: Seq<char>,
    pub address: Seq<char>,
    pub region: Seq<char>,
    pub email: Seq<char>,
}

impl View for Delivery {
    type V = DeliveryView;

    open spec fn view(&self) -> DeliveryView {
        DeliveryView {
            name: self.name@,
            phone: self.phone@,
            zip: self.zip@,
            city: self.city@,
            address: self.address@,
            region: self.region@,
            email: self.email@,
        }
    }
}

impl DeliveryView {
    /// The delivery whose every field is empty.
    pub open spec fn empty() -> DeliveryView {
        DeliveryView {
            name: Seq::empty(),
            phone: Seq::empty(),
            zip: Seq::empty(),
            city: Seq::empty(),
            address: Seq::empty(),
            region: Seq::empty(),
            email: Seq::empty(),
        }
    }
}

impl Clone for Delivery {
    fn clone(&self) -> (res: Self)
        ensures
            res@ == self@,
    {
        Delivery {
            name: self.name.clone(),
            phone: self.phone.clone(),
            zip: self.zip.clone(),
            city: self.city.clone(),
            address: self.address.clone(),
            region: self.region.clone(),
            email: self.email.clone(),
        }
    }
}

impl Default for Delivery {
    fn default() -> (res: Self)
        ensures
            res@ == DeliveryView::empty(),
    {
        Delivery {
            name: String::new(),
            phone: String::new(),
            zip: String::new(),
            city: String::new(),
            address: String::new(),
            region: String::new(),
            email: String::new(),
        }
    }
}

/// How an order was paid.
#[derive(Debug, PartialEq, Eq)]
pub struct Payment {
    /// Unique transaction identifier.
    pub transaction: String,
    /// Request ID associated with the payment.
    pub request_id: String,
    /// Currency in which the payment was made.
    pub currency: String,
    /// Payment provider.
    pub provider: String,
    /// Total amount paid for the order.
    pub amount: i32,
    /// Date and time of the payment, as a Unix timestamp.
    pub payment_dt: i64,
    /// Bank through which the payment was processed.
    pub bank: String,
    /// Cost of delivery for the order.
    pub delivery_cost: i32,
    /// Total cost of the goods in the order.
    pub goods_total: i32,
    /// Custom fee applied to the order.
    pub custom_fee: i64,
}

/// The mathematical value of a [`Payment`].
pub ghost struct PaymentView {
    pub transaction: Seq<char>,
    pub request_id: Seq<char>,
    pub currency: Seq<char>,
    pub provider: Seq<char>,
    pub amount: i32,
    pub payment_dt: i64,
    pub bank: Seq<char>,
    pub delivery_cost: i32,
    pub goods_total: i32,
    pub custom_fee: i64,
}

impl View for Payment {
    type V = PaymentView;

    open spec fn view(&self) -> PaymentView {
        PaymentView {
            transaction: self.transaction@,
            request_id: self.request_id@,
            currency: self.currency@,
            provider: self.provider@,
            amount: self.amount,
            payment_dt: self.payment_dt,
            bank: self.bank@,
            delivery_cost: self.delivery_cost,
            goods_total: self.goods_total,
            custom_fee: self.custom_fee,
        }
    }
}

impl PaymentView {
    /// The payment whose every text is empty and every number zero.
    pub open spec fn empty() -> PaymentView {
        PaymentView {
            transaction: Seq::empty(),
            request_id: Seq::empty(),
            currency: Seq::empty(),
            provider: Seq::empty(),
            amount: 0,
            payment_dt: 0,
            bank: Seq::empty(),
            delivery_cost: 0,
            goods_total: 0,
            custom_fee: 0,
        }
    }
}

impl Clone for Payment {
    fn clone(&self) -> (res: Self)
        ensures
            res@ == self@,
    {
        Payment {
            transaction: self.transaction.clone(),
            request_id: self.request_id.clone(),
            currency: self.currency.clone(),
            provider: self.provider.clone(),
            amount: self.amount,
            payment_dt: self.payment_dt,
            bank: self.bank.clone(),
            delivery_cost: self.delivery_cost,
            goods_total: self.goods_total,
            custom_fee: self.custom_fee,
        }
    }
}

impl Default for Payment {
    fn default() -> (res: Self)
        ensures
            res@ == PaymentView::empty(),
    {
        Payment {
            transaction: String::new(),
            request_id: String::new(),
            currency: String::new(),
            provider: String::new(),
            amount: 0,
            payment_dt: 0,
            bank: String::new(),
            delivery_cost: 0,
            goods_total: 0,
            custom_fee: 0,
        }
    }
}

/// One item of an order.
#[derive(Debug, PartialEq, Eq)]
pub struct Item {
    /// Unique identifier for the item.
    pub chrt_id: i64,
    /// Tracking number for the item shipment.
    pub track_number: String,
    /// Price of the item.
    pub price: i32,
    /// Retailer identifier for the item.
    pub rid: String,
    /// Name or description of the item.
    pub name: String,
    /// Discount applied to the item.
    pub sale: i32,
    /// Size of the item.
    pub size: String,
    /// Total price for the item after discounts.
    pub total_price: i32,
    /// Nomenclature identifier for the item.
    pub nm_id: i64,
    /// Brand of the item.
    pub brand: String,
    /// Status of the item.
    pub status: i64,
}

/// The mathematical value of an [`Item`].
pub ghost struct ItemView {
    pub chrt_id: i64,
    pub track_number: Seq<char>,
    pub price: i32,
    pub rid: Seq<char>,
    pub name: Seq<char>,
    pub sale: i32,
    pub size: Seq<char>,
    pub total_price: i32,
    pub nm_id: i64,
    pub brand: Seq<char>,
    pub status: i64,
}

impl View for Item {
    type V = ItemView;

    open spec fn view(&self) -> ItemView {
        ItemView {
            chrt_id: self.chrt_id,
            track_number: self.track_number@,
            price: self.price,
            rid: self.rid@,
            name: self.name@,
            sale: self.sale,
            size: self.size@,
            total_price: self.total_price,
            nm_id: self.nm_id,
            brand: self.brand@,
            status: self.status,
        }
    }
}

impl ItemView {
    /// The item whose every text is empty and every number zero.
    pub open spec fn empty() -> ItemView {
        ItemView {
            chrt_id: 0,
            track_number: Seq::empty(),
            price: 0,
            rid: Seq::empty(),
            name: Seq::empty(),
            sale: 0,
            size: Seq::empty(),
            total_price: 0,
            nm_id: 0,
            brand: Seq::empty(),
            status: 0,
        }
    }
}

impl Clone for Item {
    fn clone(&self) -> (res: Self)
        ensures
            res@ == self@,
    {
        Item {
            chrt_id: self.chrt_id,
            track_number: self.track_number.clone(),
            price: self.price,
            rid: self.rid.clone(),
            name: self.name.clone(),
            sale: self.sale,
            size: self.size.clone(),
            total_price: self.total_price,
            nm_id: self.nm_id,
            brand: self.brand.clone(),
            status: self.status,
        }
    }
}

impl Default for Item {
    fn default() -> (res: Self)
        ensures
            res@ == ItemView::empty(),
    {
        Item {
            chrt_id: 0,
            track_number: String::new(),
            price: 0,
            rid: String::new(),
            name: String::new(),
            sale: 0,
            size: String::new(),
            total_price: 0,
            nm_id: 0,
            brand: String::new(),
            status: 0,
        }
    }
}

/// The values of a sequence of items, in the same order.
pub open spec fn items_view(items: Seq<Item>) -> Seq<ItemView> {
    Seq::new(items.len(), |i: int| items[i]@)
}

/// An entire order: its own fields, its delivery, its payment and its items.
#[derive(Debug, PartialEq, Eq)]
pub struct Order {
    /// Unique identifier for the order.
    pub order_uid: String,
    /// Tracking number for the entire order.
    pub track_number: String,
    /// Entry point through which the order came.
    pub entry: String,
    /// Delivery details for the order.
    pub delivery: Delivery,
    /// Payment details for the order.
    pub payment: Payment,
    /// The items of the order, in the order in which they were received.
    pub items: Vec<Item>,
    /// Locale for the order.
    pub locale: String,
    /// Internal signature for the order.
    pub internal_signature: String,
    /// Unique customer identifier.
    pub customer_id: String,
    /// Delivery service used for the order.
    pub delivery_service: String,
    /// Shard key used for distributed storage.
    pub shardkey: String,
    /// Identifier of the sales manager associated with the order.
    pub sm_id: i32,
    /// Date and time when the order was created.
    pub date_created: String,
    /// Out-of-shard tag.
    pub oof_shard: String,
}

/// The mathematical value of an [`Order`].
pub ghost struct OrderView {
    pub order_uid: Seq<char>,
    pub track_number: Seq<char>,
    pub entry: Seq<char>,
    pub delivery: DeliveryView,
    pub payment: PaymentView,
    pub items: Seq<ItemView>,
    pub locale: Seq<char>,
    pub internal_signature: Seq<char>,
    pub customer_id: Seq<char>,
    pub delivery_service: Seq<char>,
    pub shardkey: Seq<char>,
    pub sm_id: i32,
    pub date_created: Seq<char>,
    pub oof_shard: Seq<char>,
}

impl View for Order {
    type V = OrderView;

    open spec fn view(&self) -> OrderView {
        OrderView {
            order_uid: self.order_uid@,
            track_number: self.track_number@,
            entry: self.entry@,
            delivery: self.delivery@,
            payment: self.payment@,
            items: items_view(self.items@),
            locale: self.locale@,
            internal_signature: self.internal_signature@,
            customer_id: self.customer_id@,
            delivery_service: self.delivery_service@,
            shardkey: self.shardkey@,
            sm_id: self.sm_id,
            date_created: self.date_created@,
            oof_shard: self.oof_shard@,
        }
    }
}

impl OrderView {
    /// The order without items whose every text is empty and every number zero.
    pub open spec fn empty() -> OrderView {
        OrderView {
            order_uid: Seq::empty(),
            track_number: Seq::empty(),
            entry: Seq::empty(),
            delivery: DeliveryView::empty(),
            payment: PaymentView::empty(),
            items: Seq::empty(),
            locale: Seq::empty(),
            internal_signature: Seq::empty(),
            customer_id: Seq::empty(),
            delivery_service: Seq::empty(),
            shardkey: Seq::empty(),
            sm_id: 0,
            date_created: Seq::empty(),
            oof_shard: Seq::empty(),
        }
    }
}

/// Copies a list of items, one by one and in the same order.
fn clone_items(items: &Vec<Item>) -> (res: Vec<Item>)
    ensures
        items_view(res@) == items_view(items@),
{
    let mut res: Vec<Item> = Vec::new();
    let mut i: usize = 0;
    while i < items.len()
        invariant
            i <= items.len(),
            res.len() == i,
            forall|j: int| 0 <= j < i ==> res[j]@ == items[j]@,
        decreases items.len() - i,
    {
        res.push(items[i].clone());
        i += 1;
    }
    assert(items_view(res@) =~= items_view(items@));
    res
}

impl Clone for Order {
    fn clone(&self) -> (res: Self)
        ensures
            res@ == self@,
    {
        Order {
            order_uid: self.order_uid.clone(),
            track_number: self.track_number.clone(),
            entry: self.entry.clone(),
            delivery: self.delivery.clone(),
            payment: self.payment.clone(),
            items: clone_items(&self.items),
            locale: self.locale.clone(),
            internal_signature: self.internal_signature.clone(),
            customer_id: self.customer_id.clone(),
            delivery_service: self.delivery_service.clone(),
            shardkey: self.shardkey.clone(),
            sm_id: self.sm_id,
            date_created: self.date_created.clone(),
            oof_shard: self.oof_shard.clone(),
        }
    }
}

impl Default for Order {
    fn default() -> (res: Self)
        ensures
            res@ == OrderView::empty(),
    {
        let res = Order {
            order_uid: String::new(),
            track_number: String::new(),
            entry: String::new(),
            delivery: Delivery::default(),
            payment: Payment::default(),
            items: Vec::new(),
            locale: String::new(),
            internal_signature: String::new(),
            customer_id: String::new(),
            delivery_service: String::new(),
            shardkey: String::new(),
            sm_id: 0,
            date_created: String::new(),
            oof_shard: String::new(),
        };
        assert(items_view(res.items@) =~= Seq::<ItemView>::empty());
        res
    }
}

} // verus!
