# venmo_core

The decision logic of a Venmo command-line client, written in Verus and
proved against its specifications.

- `src/` is the verified library: identifiers, usernames, amounts and
  search queries with their parsing rules; the first-seen merge of API pages;
  user search (one page, or an exhaustive search bounded to four pages and two
  hundred users), exact-username resolution and friend lists; friendship
  changes; the checks and plans of payment requests (listing, inspecting,
  creating, accepting with optional purchase protection, declining,
  cancelling); the selection of the bank of a standard transfer; the
  default-no confirmation protocol; and redacted debugging renderings.
  Each public function states in `ensures` what it returns, and the laws that
  relate several functions are public proof functions (`lemma_*`).
- `app/` is ordinary Rust around the library: the asynchronous commands that
  read the stored credential, call the Venmo API through port traits, run the
  confirmation against the terminal, and hand every decision to the library;
  displayable copies of the library's validation errors; and time conversions.
- `tests/` exercises the library on concrete values.
