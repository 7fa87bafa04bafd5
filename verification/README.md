# explorer

The verified core of a web explorer for a Grin node: what the pages and the
dashboard snippets answer, proved with Verus.

- `src/decimal.rs`: reading and writing `u64` in decimal, and their round trip.
- `src/text.rs`: the std character and string operations the rest relies on.
- `src/search.rs`: where the search box leads (block height, block hash, kernel).
- `src/pages.rs`: block list paging, block and lookup page decisions.
- `src/blocks.rs`: the snippets shown for each of the recent blocks.
- `src/dashboard.rs`: the dashboard figures and their snippets.
- `app/main.rs`: the Rocket server, templates and polling loop around the library.
