# coffee_shop

A small coffee shop: customers fill carts with bags of coffee, the shop keeps
an inventory that each order draws on, and a confirmed checkout hands the cart
over to be recorded.

- `src/` is the verified library (Verus):
  - `model.rs`: sizes, roasts and coffees with their names, prices and stock
    amounts; the inventory (stock levels keyed by each coffee's code); order
    lines and customer orders, whose total is kept equal to the sum of their
    lines. Prices are whole dollars.
  - `parse.rs`: reading coffees and sizes from their names, with the shop's
    defaults for unknown names.
  - `handlers.rs`: what each page decides: opening a cart, following an order
    link, restocking, confirming a checkout.
- `tests/`: tests of the library.
- `app/`: the web server (axum, tokio), the SQLite records (rusqlite) and the
  HTML pages; it locks the shared state and calls the library.
