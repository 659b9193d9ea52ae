# kpi_dsa

A tally of the KPI points a bank sales agent earns in a day, with a running
monthly total, a report for the team chat and a product search.

- `src/` is the verified library: the product catalogue (`catalog`), a row of
  the day's tally (`product`), the tally itself and its decisions (`app`),
  today's date (`clock`), how the monthly total is stored (`storage`), and
  the text helpers they share (`text`).
- `app/` is the window (eframe), on the desktop and in the browser: drawing,
  the clock, the clipboard, and the file or local storage that keeps the
  monthly total.
- `tests/` runs the library on concrete values.
