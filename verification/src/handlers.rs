//! What the shop's pages decide: which cart a visitor gets, what an order
//! link adds to a cart and takes out of stock, what a restock adds, and what
//! a confirmed checkout hands over for the records.
use crate::model::{
    add_fits, can_reduce, item_of, lemma_line_price_bounds, line_price, stock_after_add, stock_after_reduce, Coffee,
    CustomerOrder, Inventory, ItemOrder, Roast, Size,
};
use crate::parse::{parse_coffee, parse_size, spec_parse_coffee, spec_parse_size};
use std::collections::HashMap;
use vstd::prelude::*;

verus! {

/// Query of the shop page.
pub struct PageParameters {
    pub cart_id: Option<i32>,
}

/// Query of an order link: which cart, which coffee and size, how many bags.
pub struct AddOrderParams {
    pub cart_id: i32,
    pub coffee: String,
    pub size: String,
    pub qty: i32,
}

/// Query of a restock link: which coffee, how many bags.
pub struct AddInventoryParams {
    pub coffee: String,
    pub qty: i32,
}

/// Query of the checkout pages: which cart.
pub struct CheckoutParams {
    pub cart_id: i32,
}

/// The lines of cart `id` before an order link is followed: those of the
/// stored cart, or none for a cart that is opened by it.
pub open spec fn lines_before(carts: Map<i32, CustomerOrder>, id: i32) -> Seq<ItemOrder> {
    if carts.contains_key(id) {
        carts[id].items@
    } else {
        Seq::empty()
    }
}

/// The total of cart `id` before an order link is followed (zero for a new cart).
pub open spec fn total_before(carts: Map<i32, CustomerOrder>, id: i32) -> int {
    if carts.contains_key(id) {
        carts[id].total_price as int
    } else {
        0
    }
}

/// The number carried by cart `id` before an order link is followed
/// (a new cart carries `id`).
pub open spec fn number_before(carts: Map<i32, CustomerOrder>, id: i32) -> i32 {
    if carts.contains_key(id) {
        carts[id].id
    } else {
        id
    }
}

/// Whether following an order link adds its line: the coffee has enough bags
/// for the size, and the cart's total stays within `i64`.
pub open spec fn order_accepted(
    carts: Map<i32, CustomerOrder>,
    stock: Map<u8, i32>,
    cart_id: i32,
    coffee: Coffee,
    size: Size,
    qty: i32,
) -> bool {
    &&& can_reduce(stock, coffee.spec_code(), size.spec_amount())
    &&& i64::MIN <= total_before(carts, cart_id) + line_price(size, qty) <= i64::MAX
}

/// The carts after a confirmed checkout of cart `id`: that cart is gone.
pub open spec fn carts_after_confirm(carts: Map<i32, CustomerOrder>, id: i32) -> Map<
    i32,
    CustomerOrder,
> {
    carts.remove(id)
}

/// Makes sure cart `cart_id` exists, creating it empty when it does not.
pub fn open_cart(carts: &mut HashMap<i32, CustomerOrder>, cart_id: i32)
    ensures
        old(carts)@.contains_key(cart_id) ==> final(carts)@ == old(carts)@,
        !old(carts)@.contains_key(cart_id) ==> {
            &&& final(carts)@ == old(carts)@.insert(cart_id, final(carts)@[cart_id])
            &&& final(carts)@[cart_id].is_fresh(cart_id)
            &&& final(carts)@[cart_id].wf()
            &&& final(carts)@[cart_id].id == cart_id
            &&& final(carts)@[cart_id].items@.len() == 0
            &&& final(carts)@[cart_id].total_price == 0
        },
{
    if !carts.contains_key(&cart_id) {
        carts.insert(cart_id, CustomerOrder::new(cart_id));
    }
}

/// Follows an order link: opens the cart if needed, then, if the coffee has
/// enough bags for the size, takes them out of stock and adds a line of the
/// medium roast to the cart. Returns whether the line was added; a line
/// whose price would take the cart's total beyond `i64` is refused before any
/// stock is taken.
///
/// The stock taken out depends on the size alone, whatever the quantity.
pub fn add_to_cart(
    carts: &mut HashMap<i32, CustomerOrder>,
    inventory: &mut Inventory,
    params: &AddOrderParams,
) -> (added: bool)
    ensures
        ({
            let coffee = spec_parse_coffee(params.coffee@);
            let size = spec_parse_size(params.size@);
            let id = params.cart_id;
            let cart = final(carts)@[id];
            &&& added == order_accepted(
                old(carts)@,
                old(inventory).stock@,
                id,
                coffee,
                size,
                params.qty,
            )
            &&& final(carts)@ == old(carts)@.insert(id, cart)
            &&& cart.id == number_before(old(carts)@, id)
            &&& added ==> {
                &&& cart.items@ == lines_before(old(carts)@, id).push(
                    item_of(coffee, Roast::Medium, size, params.qty),
                )
                &&& cart.total_price == total_before(old(carts)@, id) + line_price(
                    size,
                    params.qty,
                )
                &&& final(inventory).stock@ == stock_after_reduce(
                    old(inventory).stock@,
                    coffee.spec_code(),
                    size.spec_amount(),
                )
            }
            &&& !added ==> {
                &&& cart.items@ == lines_before(old(carts)@, id)
                &&& cart.total_price == total_before(old(carts)@, id)
                &&& final(inventory).stock@ == old(inventory).stock@
            }
            &&& (old(carts)@.contains_key(id) ==> old(carts)@[id].wf()) ==> cart.wf()
        }),
        ({
            let code = spec_parse_coffee(params.coffee@).spec_code();
            let size = spec_parse_size(params.size@);
            let before = if old(carts)@.contains_key(params.cart_id) {
                old(carts)@[params.cart_id].total_price as int
            } else {
                0
            };
            let price = size.spec_price() * params.qty;
            &&& added == (old(inventory).stock@.contains_key(code) && old(inventory).stock@[code]
                >= size.spec_amount() && i64::MIN <= before + price <= i64::MAX)
            &&& added ==> final(inventory).stock@ == old(inventory).stock@.insert(
                code,
                (old(inventory).stock@[code] - size.spec_amount()) as i32,
            )
            &&& added ==> final(carts)@[params.cart_id].total_price == before + price
            &&& added ==> final(carts)@[params.cart_id].items@.last().roast == Roast::Medium
            &&& added ==> final(carts)@[params.cart_id].items@.last().price == price
            &&& !added ==> final(inventory).stock@ == old(inventory).stock@
            &&& !added ==> final(carts)@[params.cart_id].total_price == before
        }),
{
    let coffee = parse_coffee(params.coffee.as_str());
    let size = parse_size(params.size.as_str());
    let id: i32 = params.cart_id;
    open_cart(carts, id);
    let mut cart = match carts.remove(&id) {
        Some(c) => c,
        None => {
            return false;
        },
    };
    proof {
        lemma_line_price_bounds(size, params.qty);
    }
    let line: i64 = size.price() * (params.qty as i64);
    let fits: bool = match cart.total_price.checked_add(line) {
        Some(_) => true,
        None => false,
    };
    if !fits {
        carts.insert(id, cart);
        return false;
    }
    if inventory.reduce_stock(coffee, size.amount()) {
        cart.add_item(coffee, Roast::Medium, size, params.qty);
        carts.insert(id, cart);
        true
    } else {
        carts.insert(id, cart);
        false
    }
}

/// Follows a restock link: adds `qty` bags of the named coffee to the
/// inventory and returns that coffee.
pub fn restock(inventory: &mut Inventory, params: &AddInventoryParams) -> (r: Coffee)
    requires
        add_fits(old(inventory).stock@, spec_parse_coffee(params.coffee@).spec_code(), params.qty),
    ensures
        r == spec_parse_coffee(params.coffee@),
        final(inventory).stock@ == stock_after_add(old(inventory).stock@, r.spec_code(), params.qty),
{
    let coffee = parse_coffee(params.coffee.as_str());
    inventory.add_stock(coffee, params.qty);
    coffee
}

/// Confirms the checkout of cart `cart_id`: removes it and hands it back,
/// and moves the order counter on so that the next visitor gets a new cart.
/// A cart that is not there (never opened, or already checked out) gives
/// `None` and changes nothing.
pub fn confirm_order(
    carts: &mut HashMap<i32, CustomerOrder>,
    num_orders: &mut i32,
    cart_id: i32,
) -> (r: Option<CustomerOrder>)
    requires
        old(carts)@.contains_key(cart_id) ==> *old(num_orders) < i32::MAX,
    ensures
        match r {
            Some(order) => {
                &&& old(carts)@.contains_key(cart_id)
                &&& order == old(carts)@[cart_id]
                &&& final(carts)@ == carts_after_confirm(old(carts)@, cart_id)
                &&& *final(num_orders) == *old(num_orders) + 1
            },
            None => {
                &&& !old(carts)@.contains_key(cart_id)
                &&& final(carts)@ == old(carts)@
                &&& *final(num_orders) == *old(num_orders)
            },
        },
{
    match carts.remove(&cart_id) {
        Some(order) => {
            *num_orders = *num_orders + 1;
            Some(order)
        },
        None => None,
    }
}

/// An order link is accepted exactly when the coffee is listed with at least
/// the size's amount of bags (an order that takes the last bags is accepted)
/// and the cart's total plus the line's price, the size's unit price times the
/// quantity, stays within `i64`.
pub proof fn lemma_order_accepted_exactly_when(
    carts: Map<i32, CustomerOrder>,
    stock: Map<u8, i32>,
    cart_id: i32,
    coffee: Coffee,
    size: Size,
    qty: i32,
)
    ensures
        order_accepted(carts, stock, cart_id, coffee, size, qty) == ({
            let code = coffee.spec_code();
            let before = if carts.contains_key(cart_id) {
                carts[cart_id].total_price as int
            } else {
                0
            };
            &&& stock.contains_key(code)
            &&& stock[code] >= size.spec_amount()
            &&& i64::MIN <= before + size.spec_price() * qty <= i64::MAX
        }),
        !carts.contains_key(cart_id) && stock.contains_key(coffee.spec_code()) && stock[coffee.spec_code()]
            == size.spec_amount() && 0 <= qty <= 1000 ==> order_accepted(
            carts,
            stock,
            cart_id,
            coffee,
            size,
            qty,
        ),
{
}

/// A cart that has been checked out is gone, so confirming it again gives
/// `None`; every other cart is left as it was.
pub proof fn lemma_checkout_only_once(carts: Map<i32, CustomerOrder>, id: i32)
    ensures
        !carts_after_confirm(carts, id).contains_key(id),
        forall|other: i32|
            other != id && #[trigger] carts.contains_key(other) ==> carts_after_confirm(
                carts,
                id,
            ).contains_key(other) && carts_after_confirm(carts, id)[other] == carts[other],
{
}

} // verus!
