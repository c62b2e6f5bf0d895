# payslip

A payslip service: employees and administrators sign in with a one-time
password sent by mail, receive an HS256 access token, and fetch payslip PDFs;
administrators upload payroll CSV files.

- `src/` is the verified library (Verus). Every function carries a contract,
  and the laws of the service are public proof functions:
  - `otp` — making, issuing, checking and spending one-time passwords, the
    sign-in mail and the email normalisation;
  - `token` — the claims of an access token, their JSON text, signing and
    checking with `jsonwebtoken`;
  - `access` — finding a request's token and deciding which payslip a
    signed-in user may see;
  - `links` — the PDF links of the web client and the token they carry;
  - `csv_import` — previews of uploaded CSV files (read with `csv`);
  - `mail` — putting mails together with `lettre`;
  - `config`, `error`, `model`, `payslip`, `forms`, `text` — settings,
    errors and their answers, the exchanged messages, payslip wording, the
    web client's form checks and redirects, and character-level helpers.
- `app/` is the server program around it: environment, database, HTTP
  routing, SMTP transport and PDF rendering.
- `tests/` runs the library on concrete values.
