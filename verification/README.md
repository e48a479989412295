# oxebank

The transfer service of the OxeBank digital bank: customers are registered
and listed, pay into their own account, show the data that others need to
pay them (TED/DOC or PIX, optionally as a QR code), and transfer money by
account or by PIX key.

- `src/` is the verified library. `atendimento.rs` holds the handling
  of every request as a state machine: from a request it asks for work
  (a database lookup or write, the clock, a JSON text, a QR image, the
  numeric evaluation of balances) and, from the report of that work, decides
  the next step or the answer. `leis.rs` proves what every handling does:
  the complete runs of each request, and that balances are written,
  accounts credited, customers stored and QR codes written only when the
  request allows it, whatever is reported.
  `cliente.rs`, `transf.rs` and `mensagem.rs` hold the records and the texts.
- `app/` is the HTTP server (tide, MongoDB, chrono, serde_json,
  qrcode-generator): it does the work that the library asks for, including
  the floating-point arithmetic on balances, and sends the answers.
- `tests/` runs the library on concrete requests.
