# fbr_tools

Crate labels for FBR Marble purchase orders: every line of a purchase order
becomes one label per crate, and every label one A4 landscape page of a PDF.

- `src/` is the library, verified with Verus:
  - `labels`: purchase-order lines, their crate labels and the label texts;
  - `layout`: the page of a label as drawing operations in nanometres;
  - `calendar`: the date printed on a label;
  - `request`: reading the purchase order number, the replies to failures and
    the PDF's file name;
  - `text`: decimal numbers and upper-casing.
- `app/` is the server: the Leptos pages, the SAP database queries, the
  conversion of the layout into printpdf operations, and the HTTP handler.
- `tests/` exercises the library on concrete values.

The server reads the two Atkinson Hyperlegible Mono faces and `fbr_logo.png`
from its working directory, and the database settings from `SAP_DB_HOST`,
`SAP_DB_PORT`, `SAP_DB_USER`, `SAP_DB_PASSWORD` and `SAP_DB_NAME`.
