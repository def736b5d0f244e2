//! The shop's data: sizes, roasts, coffees, the inventory and customer orders.
use std::collections::HashMap;
use vstd::prelude::*;

verus! {

/// Bag sizes a customer can order.
#[derive(Debug, Clone, Copy, PartialEq, Eq, Structural)]
pub enum Size {
    Small,
    Medium,
    Large,
}

impl Size {
    /// Price of one bag of this size, in whole dollars.
    pub open spec fn spec_price(self) -> i64 {
        match self {
            Size::Small => 5,
            Size::Medium => 8,
            Size::Large => 12,
        }
    }

    /// Bags taken out of stock when this size is ordered.
    pub open spec fn spec_amount(self) -> i32 {
        match self {
            Size::Small => 1,
            Size::Medium => 2,
            Size::Large => 3,
        }
    }

    /// The name of this size as the shop writes it.
    pub open spec fn spec_to_str(self) -> Seq<char> {
        match self {
            Size::Small => "Small"@,
            Size::Medium => "Medium"@,
            Size::Large => "Large"@,
        }
    }

    /// Price of one bag of this size, in whole dollars.
    pub(crate) fn price(&self) -> (r: i64)
        ensures
            r == self.spec_price(),
    {
        match self {
            Size::Small => 5,
            Size::Medium => 8,
            Size::Large => 12,
        }
    }

    /// How much stock to take out when this size is ordered.
    pub fn amount(&self) -> (r: i32)
        ensures
            r == self.spec_amount(),
    {
        match self {
            Size::Small => 1,
            Size::Medium => 2,
            Size::Large => 3,
        }
    }

    /// The name of this size, as stored with an order.
    pub fn to_str(&self) -> (r: &str)
        ensures
            r@ == self.spec_to_str(),
    {
        match self {
            Size::Small => "Small",
            Size::Medium => "Medium",
            Size::Large => "Large",
        }
    }
}

/// How dark a coffee is roasted.
#[derive(Debug, Clone, Copy, PartialEq, Eq, Structural)]
pub enum Roast {
    Light,
    Medium,
    Dark,
}

impl Roast {
    /// The name of this roast as the shop writes it.
    pub open spec fn spec_to_str(self) -> Seq<char> {
        match self {
            Roast::Light => "Light"@,
            Roast::Medium => "Medium"@,
            Roast::Dark => "Dark"@,
        }
    }

    /// The name of this roast, as stored with an order.
    pub fn to_str(&self) -> (r: &str)
        ensures
            r@ == self.spec_to_str(),
    {
        match self {
            Roast::Light => "Light",
            Roast::Medium => "Medium",
            Roast::Dark => "Dark",
        }
    }
}

/// The coffees the shop sells.
#[derive(Debug, Clone, Copy, PartialEq, Eq, Structural, Hash)]
pub enum Coffee {
    Columbian,
    Arabica,
    Robusta,
    Excelsa,
    BreakfastBlend,
    MidnightRoast,
}

impl Coffee {
    /// The key under which this coffee's stock is kept in an inventory.
    pub open spec fn spec_code(self) -> u8 {
        match self {
            Coffee::Columbian => 0,
            Coffee::Arabica => 1,
            Coffee::Robusta => 2,
            Coffee::Excelsa => 3,
            Coffee::BreakfastBlend => 4,
            Coffee::MidnightRoast => 5,
        }
    }

    /// The coffee kept under an inventory key, if any.
    pub open spec fn spec_from_code(code: u8) -> Option<Coffee> {
        if code == 0 {
            Some(Coffee::Columbian)
        } else if code == 1 {
            Some(Coffee::Arabica)
        } else if code == 2 {
            Some(Coffee::Robusta)
        } else if code == 3 {
            Some(Coffee::Excelsa)
        } else if code == 4 {
            Some(Coffee::BreakfastBlend)
        } else if code == 5 {
            Some(Coffee::MidnightRoast)
        } else {
            None
        }
    }

    /// The name of this coffee as the shop writes it.
    pub open spec fn spec_to_str(self) -> Seq<char> {
        match self {
            Coffee::Columbian => "Columbian"@,
            Coffee::Arabica => "Arabica"@,
            Coffee::Robusta => "Robusta"@,
            Coffee::Excelsa => "Excelsa"@,
            Coffee::BreakfastBlend => "BreakfastBlend"@,
            Coffee::MidnightRoast => "MidnightRoast"@,
        }
    }

    /// A short tasting note for this coffee.
    pub open spec fn spec_description(self) -> Seq<char> {
        match self {
            Coffee::Columbian => "Smooth and balanced with mild acidity"@,
            Coffee::Arabica => "Sweet and complex with fruity notes"@,
            Coffee::Robusta => "Strong and bitter with high caffeine"@,
            Coffee::Excelsa => "Tart and fruity with a unique profile"@,
            Coffee::BreakfastBlend => "Light and bright, perfect for mornings"@,
            Coffee::MidnightRoast => "Dark and bold with deep flavor"@,
        }
    }

    /// The key under which this coffee's stock is kept in an inventory.
    pub fn code(&self) -> (r: u8)
        ensures
            r == self.spec_code(),
    {
        match self {
            Coffee::Columbian => 0,
            Coffee::Arabica => 1,
            Coffee::Robusta => 2,
            Coffee::Excelsa => 3,
            Coffee::BreakfastBlend => 4,
            Coffee::MidnightRoast => 5,
        }
    }

    /// The coffee kept under an inventory key; `None` for a key no coffee uses.
    pub fn from_code(code: u8) -> (r: Option<Coffee>)
        ensures
            r == Coffee::spec_from_code(code),
    {
        if code == 0 {
            Some(Coffee::Columbian)
        } else if code == 1 {
            Some(Coffee::Arabica)
        } else if code == 2 {
            Some(Coffee::Robusta)
        } else if code == 3 {
            Some(Coffee::Excelsa)
        } else if code == 4 {
            Some(Coffee::BreakfastBlend)
        } else if code == 5 {
            Some(Coffee::MidnightRoast)
        } else {
            None
        }
    }

    /// A short tasting note for this coffee.
    pub fn description(&self) -> (r: &'static str)
        ensures
            r@ == self.spec_description(),
    {
        match self {
            Coffee::Columbian => "Smooth and balanced with mild acidity",
            Coffee::Arabica => "Sweet and complex with fruity notes",
            Coffee::Robusta => "Strong and bitter with high caffeine",
            Coffee::Excelsa => "Tart and fruity with a unique profile",
            Coffee::BreakfastBlend => "Light and bright, perfect for mornings",
            Coffee::MidnightRoast => "Dark and bold with deep flavor",
        }
    }

    /// The name of this coffee, as stored in the database and shown on the pages.
    pub fn to_str(&self) -> (r: &str)
        ensures
            r@ == self.spec_to_str(),
    {
        match self {
            Coffee::Columbian => "Columbian",
            Coffee::Arabica => "Arabica",
            Coffee::Robusta => "Robusta",
            Coffee::Excelsa => "Excelsa",
            Coffee::BreakfastBlend => "BreakfastBlend",
            Coffee::MidnightRoast => "MidnightRoast",
        }
    }
}

/// Each coffee has its own inventory key, and the key leads back to the coffee.
pub proof fn lemma_code_round_trip(c: Coffee)
    ensures
        Coffee::spec_from_code(c.spec_code()) == Some(c),
        c.spec_code() < 6,
{
}

/// Bags in stock under `code`; a coffee the inventory does not list counts as none.
pub open spec fn stock_level(stock: Map<u8, i32>, code: u8) -> int {
    if stock.contains_key(code) {
        stock[code] as int
    } else {
        0
    }
}

/// Adding `amount` bags under `code` keeps the level within `i32`.
pub open spec fn add_fits(stock: Map<u8, i32>, code: u8, amount: i32) -> bool {
    i32::MIN <= stock_level(stock, code) + amount <= i32::MAX
}

/// The stock after `amount` bags are added under `code`: the coffee is listed
/// afterwards, with its former level (none if unlisted) plus `amount`.
pub open spec fn stock_after_add(stock: Map<u8, i32>, code: u8, amount: i32) -> Map<u8, i32> {
    stock.insert(code, (stock_level(stock, code) + amount) as i32)
}

/// A reduction by `amount` succeeds when the coffee is listed with at least `amount` bags.
pub open spec fn can_reduce(stock: Map<u8, i32>, code: u8, amount: i32) -> bool {
    stock.contains_key(code) && stock[code] >= amount
}

/// Taking `amount` bags out under `code` keeps the level within `i32`.
pub open spec fn reduce_fits(stock: Map<u8, i32>, code: u8, amount: i32) -> bool {
    can_reduce(stock, code, amount) ==> stock[code] - amount <= i32::MAX
}

/// The stock after a reduction by `amount` under `code`: lowered when it
/// succeeds, unchanged when it does not.
pub open spec fn stock_after_reduce(stock: Map<u8, i32>, code: u8, amount: i32) -> Map<u8, i32> {
    if can_reduce(stock, code, amount) {
        stock.insert(code, (stock[code] - amount) as i32)
    } else {
        stock
    }
}

/// Bags of each coffee in stock, keyed by the coffee's inventory key.
#[derive(Debug, Clone)]
pub struct Inventory {
    pub stock: HashMap<u8, i32>,
}

impl Inventory {
    /// An inventory holding the given stock levels.
    pub fn new(stock: HashMap<u8, i32>) -> (r: Self)
        ensures
            r.stock@ == stock@,
    {
        Inventory { stock }
    }

    /// Restocks `coffee` by `amount` bags, listing it first if it was not listed.
    pub fn add_stock(&mut self, coffee: Coffee, amount: i32)
        requires
            add_fits(old(self).stock@, coffee.spec_code(), amount),
        ensures
            final(self).stock@ == stock_after_add(old(self).stock@, coffee.spec_code(), amount),
            final(self).stock@.contains_key(coffee.spec_code()),
            old(self).stock@.contains_key(coffee.spec_code()) ==> final(self).stock@[coffee.spec_code()]
                == old(self).stock@[coffee.spec_code()] + amount,
            !old(self).stock@.contains_key(coffee.spec_code()) ==> final(self).stock@[coffee.spec_code()]
                == amount,
            forall|k: u8|
                k != coffee.spec_code() ==> (#[trigger] final(self).stock@.contains_key(k)
                    == old(self).stock@.contains_key(k) && (old(self).stock@.contains_key(k)
                    ==> final(self).stock@[k] == old(self).stock@[k])),
    {
        let code: u8 = coffee.code();
        let current: i32 = match self.stock.get(&code) {
            Some(v) => *v,
            None => 0,
        };
        self.stock.insert(code, current + amount);
    }

    /// Whether restocking `coffee` by `amount` keeps its level within `i32`
    /// (what `add_stock` asks of its caller).
    pub fn can_add_stock(&self, coffee: Coffee, amount: i32) -> (r: bool)
        ensures
            r == add_fits(self.stock@, coffee.spec_code(), amount),
    {
        let code: u8 = coffee.code();
        let current: i32 = match self.stock.get(&code) {
            Some(v) => *v,
            None => 0,
        };
        current.checked_add(amount).is_some()
    }

    /// Takes `amount` bags of `coffee` out of stock if that many are there;
    /// returns whether it did. When it does not, the stock is left as it was.
    pub fn reduce_stock(&mut self, coffee: Coffee, amount: i32) -> (r: bool)
        requires
            reduce_fits(old(self).stock@, coffee.spec_code(), amount),
        ensures
            r == can_reduce(old(self).stock@, coffee.spec_code(), amount),
            final(self).stock@ == stock_after_reduce(old(self).stock@, coffee.spec_code(), amount),
            r == (old(self).stock@.contains_key(coffee.spec_code()) && old(self).stock@[coffee.spec_code()]
                >= amount),
            r ==> final(self).stock@ == old(self).stock@.insert(
                coffee.spec_code(),
                (old(self).stock@[coffee.spec_code()] - amount) as i32,
            ),
            r ==> final(self).stock@[coffee.spec_code()] == old(self).stock@[coffee.spec_code()]
                - amount,
            !r ==> final(self).stock@ == old(self).stock@,
    {
        let code: u8 = coffee.code();
        match self.stock.get(&code) {
            Some(v) => {
                let current: i32 = *v;
                if current >= amount {
                    self.stock.insert(code, current - amount);
                    return true;
                }
                false
            },
            None => false,
        }
    }
}

/// A successful reduction never leaves the coffee with fewer than zero bags,
/// and a failed one changes nothing.
pub proof fn lemma_reduce_never_below_zero(stock: Map<u8, i32>, code: u8, amount: i32)
    requires
        reduce_fits(stock, code, amount),
    ensures
        can_reduce(stock, code, amount) ==> stock_after_reduce(stock, code, amount)[code] >= 0,
        !can_reduce(stock, code, amount) ==> stock_after_reduce(stock, code, amount) == stock,
{
}

/// Stock levels that are all non-negative stay so under a restock by a
/// non-negative amount and under any reduction.
pub proof fn lemma_stock_stays_nonnegative(
    stock: Map<u8, i32>,
    add_code: u8,
    added: i32,
    reduce_code: u8,
    taken: i32,
)
    requires
        forall|k: u8| #[trigger] stock.contains_key(k) ==> stock[k] >= 0,
        added >= 0,
        add_fits(stock, add_code, added),
        reduce_fits(stock, reduce_code, taken),
    ensures
        forall|k: u8| #[trigger]
            stock_after_add(stock, add_code, added).contains_key(k) ==> stock_after_add(
                stock,
                add_code,
                added,
            )[k] >= 0,
        forall|k: u8| #[trigger]
            stock_after_reduce(stock, reduce_code, taken).contains_key(k) ==> stock_after_reduce(
                stock,
                reduce_code,
                taken,
            )[k] >= 0,
{
}

/// Restocking a listed coffee by `amount` bags and then reducing it by the
/// same amount succeeds and gives back the stock as it was.
pub proof fn lemma_restock_then_reduce(stock: Map<u8, i32>, code: u8, amount: i32)
    requires
        stock.contains_key(code),
        stock[code] >= 0,
        amount >= 0,
        add_fits(stock, code, amount),
    ensures
        reduce_fits(stock_after_add(stock, code, amount), code, amount),
        can_reduce(stock_after_add(stock, code, amount), code, amount),
        stock_after_reduce(stock_after_add(stock, code, amount), code, amount) == stock,
{
    let added = stock_after_add(stock, code, amount);
    assert(stock_after_reduce(added, code, amount) =~= stock);
}

/// One line of an order: `quantity` bags of one coffee, roast and size.
/// `price` is in whole dollars.
#[derive(Debug, Clone)]
pub struct ItemOrder {
    pub coffee: Coffee,
    pub roast: Roast,
    pub size: Size,
    pub quantity: i32,
    pub price: i64,
}

/// The price of `quantity` bags of `size`, in whole dollars.
pub open spec fn line_price(size: Size, quantity: i32) -> int {
    size.spec_price() * quantity
}

/// The order line that `ItemOrder::new` builds.
pub open spec fn item_of(coffee: Coffee, roast: Roast, size: Size, quantity: i32) -> ItemOrder {
    ItemOrder { coffee, roast, size, quantity, price: line_price(size, quantity) as i64 }
}

/// The sum of the prices of some order lines.
pub open spec fn items_total(items: Seq<ItemOrder>) -> int
    decreases items.len(),
{
    if items.len() == 0 {
        0
    } else {
        items_total(items.drop_last()) + items.last().price
    }
}

pub(crate) proof fn lemma_line_price_bounds(size: Size, quantity: i32)
    ensures
        -12 * 0x8000_0000 <= line_price(size, quantity) <= 12 * 0x8000_0000,
{
}

impl ItemOrder {
    /// An order line, priced at the size's price times the quantity.
    pub(crate) fn new(new_coffee: Coffee, new_roast: Roast, new_size: Size, new_quantity: i32) -> (r:
        Self)
        ensures
            r == item_of(new_coffee, new_roast, new_size, new_quantity),
            r.coffee == new_coffee,
            r.roast == new_roast,
            r.size == new_size,
            r.quantity == new_quantity,
            r.price == new_size.spec_price() * new_quantity,
    {
        proof {
            lemma_line_price_bounds(new_size, new_quantity);
        }
        let total_price: i64 = new_size.price() * (new_quantity as i64);
        ItemOrder {
            coffee: new_coffee,
            size: new_size,
            quantity: new_quantity,
            price: total_price,
            roast: new_roast,
        }
    }
}

/// A customer's cart, and after checkout the receipt of what was bought.
/// `total_price` is in whole dollars.
#[derive(Debug, Clone)]
pub struct CustomerOrder {
    pub id: i32,
    pub items: Vec<ItemOrder>,
    pub total_price: i64,
}

impl CustomerOrder {
    /// The total is the sum of the prices of the lines.
    pub open spec fn wf(self) -> bool {
        self.total_price == items_total(self.items@)
    }

    /// An empty order numbered `id`.
    pub open spec fn is_fresh(self, id: i32) -> bool {
        &&& self.id == id
        &&& self.items@.len() == 0
        &&& self.total_price == 0
    }

    /// Adding a line of `quantity` bags of `size` keeps the total within `i64`.
    pub open spec fn can_add(self, size: Size, quantity: i32) -> bool {
        i64::MIN <= self.total_price + line_price(size, quantity) <= i64::MAX
    }

    /// A new, empty order numbered `new_id`.
    pub fn new(new_id: i32) -> (r: Self)
        ensures
            r.is_fresh(new_id),
            r.wf(),
            r.id == new_id,
            r.items@.len() == 0,
            r.total_price == 0,
    {
        CustomerOrder { id: new_id, items: Vec::new(), total_price: 0 }
    }

    /// Adds a line to the order and its price to the total.
    pub fn add_item(&mut self, coffee: Coffee, roast: Roast, size: Size, quantity: i32)
        requires
            old(self).can_add(size, quantity),
        ensures
            final(self).id == old(self).id,
            final(self).items@ == old(self).items@.push(item_of(coffee, roast, size, quantity)),
            final(self).total_price == old(self).total_price + line_price(size, quantity),
            old(self).wf() ==> final(self).wf(),
            final(self).items@.len() == old(self).items@.len() + 1,
            forall|i: int| 0 <= i < old(self).items@.len() ==> #[trigger] final(self).items@[i]
                == old(self).items@[i],
            final(self).items@.last().coffee == coffee,
            final(self).items@.last().roast == roast,
            final(self).items@.last().size == size,
            final(self).items@.last().quantity == quantity,
            final(self).items@.last().price == size.spec_price() * quantity,
            final(self).total_price == old(self).total_price + size.spec_price() * quantity,
    {
        proof {
            lemma_line_price_bounds(size, quantity);
        }
        let item = ItemOrder::new(coffee, roast, size, quantity);
        self.total_price = self.total_price + item.price;
        self.items.push(item);
        proof {
            assert(self.items@.drop_last() =~= old(self).items@);
        }
    }
}

/// The names the shop writes for sizes, roasts and coffees.
pub proof fn lemma_names()
    ensures
        Size::Small.spec_to_str() == "Small"@,
        Size::Medium.spec_to_str() == "Medium"@,
        Size::Large.spec_to_str() == "Large"@,
        Roast::Light.spec_to_str() == "Light"@,
        Roast::Medium.spec_to_str() == "Medium"@,
        Roast::Dark.spec_to_str() == "Dark"@,
        Coffee::Columbian.spec_to_str() == "Columbian"@,
        Coffee::Arabica.spec_to_str() == "Arabica"@,
        Coffee::Robusta.spec_to_str() == "Robusta"@,
        Coffee::Excelsa.spec_to_str() == "Excelsa"@,
        Coffee::BreakfastBlend.spec_to_str() == "BreakfastBlend"@,
        Coffee::MidnightRoast.spec_to_str() == "MidnightRoast"@,
{
}

/// The unit prices of the sizes, in whole dollars: Small 5, Medium 8, Large 12;
/// and the bags each size takes out of stock: 1, 2, 3.
pub proof fn lemma_size_prices_and_amounts()
    ensures
        Size::Small.spec_price() == 5,
        Size::Medium.spec_price() == 8,
        Size::Large.spec_price() == 12,
        Size::Small.spec_amount() == 1,
        Size::Medium.spec_amount() == 2,
        Size::Large.spec_amount() == 3,
{
}

/// A line of `quantity` bags costs the size's unit price (5, 8 or 12 dollars)
/// times the quantity, for every quantity; so one more bag costs exactly one
/// more unit price.
pub proof fn lemma_line_price_is_unit_times_quantity(size: Size, quantity: i32)
    ensures
        size == Size::Small ==> line_price(size, quantity) == 5 * quantity,
        size == Size::Medium ==> line_price(size, quantity) == 8 * quantity,
        size == Size::Large ==> line_price(size, quantity) == 12 * quantity,
        quantity < i32::MAX ==> line_price(size, (quantity + 1) as i32) - line_price(size, quantity)
            == size.spec_price(),
        line_price(size, 0) == 0,
{
}

/// An order line records exactly the coffee, roast, size and quantity that
/// were ordered, and is priced at the size's unit price times the quantity.
pub proof fn lemma_line_records_what_was_ordered(
    coffee: Coffee,
    roast: Roast,
    size: Size,
    quantity: i32,
)
    ensures
        item_of(coffee, roast, size, quantity).coffee == coffee,
        item_of(coffee, roast, size, quantity).roast == roast,
        item_of(coffee, roast, size, quantity).size == size,
        item_of(coffee, roast, size, quantity).quantity == quantity,
        item_of(coffee, roast, size, quantity).price == size.spec_price() * quantity,
{
    lemma_line_price_bounds(size, quantity);
}

/// A restock by `amount` leaves the coffee listed with its former level plus
/// `amount`, an unlisted coffee counting as zero bags; every other coffee is
/// left as it was.
pub proof fn lemma_restock_adds_amount(stock: Map<u8, i32>, code: u8, amount: i32)
    requires
        add_fits(stock, code, amount),
    ensures
        stock_after_add(stock, code, amount).contains_key(code),
        stock.contains_key(code) ==> stock_after_add(stock, code, amount)[code] == stock[code]
            + amount,
        !stock.contains_key(code) ==> stock_after_add(stock, code, amount)[code] == amount,
        forall|k: u8|
            k != code ==> (#[trigger] stock_after_add(stock, code, amount).contains_key(k)
                == stock.contains_key(k) && (stock.contains_key(k) ==> stock_after_add(
                stock,
                code,
                amount,
            )[k] == stock[k])),
{
}

/// A reduction succeeds exactly when the coffee is listed with at least
/// `amount` bags (so taking the last bags succeeds and leaves zero); it then
/// lowers that coffee by `amount` and leaves the others as they were.
pub proof fn lemma_reduce_exactly_when_enough(stock: Map<u8, i32>, code: u8, amount: i32)
    requires
        reduce_fits(stock, code, amount),
    ensures
        can_reduce(stock, code, amount) == (stock.contains_key(code) && stock[code] >= amount),
        stock.contains_key(code) && stock[code] == amount ==> can_reduce(stock, code, amount)
            && stock_after_reduce(stock, code, amount)[code] == 0,
        can_reduce(stock, code, amount) ==> stock_after_reduce(stock, code, amount)[code]
            == stock[code] - amount,
        forall|k: u8|
            k != code ==> (#[trigger] stock_after_reduce(stock, code, amount).contains_key(k)
                == stock.contains_key(k) && (stock.contains_key(k) ==> stock_after_reduce(
                stock,
                code,
                amount,
            )[k] == stock[k])),
{
}

} // verus!
