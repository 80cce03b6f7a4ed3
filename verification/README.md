# yards

Registration service for devices, IP ranges, DHCP pools and DNS zones.

- `src/` is the verified library (Verus):
  - `models` — the stored records; DNS record type names.
  - `zone` — zone data for the DNS agent, padded so that the columns of
    each resource record line up.
  - `netmask`, `dhcp` — netmasks of IPv4 ranges and the configuration that
    the DHCP agent fetches.
  - `token` — server agent tokens and the hash under which they are stored.
  - `reply` — how each HTTP handler answers the outcome of its query.
  - `text` — spaces, byte lengths, decimal notation.
- `app/` holds the HTTP handlers (actix-web, sqlx), the server agent loop
  (reqwest, tera) and copies of the records with serde/sqlx derives.
- `tests/` runs the library on concrete values.
