# Kehrkraft

Kehrwoche planning for apartment buildings: which apartment cleans the
stairs in which week, who lives there at the time, and the calendar feed,
PDF and admin pages that show it. Hourly encrypted backups of the SQLite
database go to an S3-compatible object store.

## Layout

- `src/` is the library, verified with Verus:
  - `scheduler` — the weekly rotation over a building's apartments and who
    is responsible for each week (a tenant covering the week, else the
    owner covering most of it), with its laws: the duty moves to the next
    apartment each week and with each step of the seed, the number of
    apartments brings the seed back, and changes of owners or tenants
    never move duty weeks between apartments.
  - `web::ical`, `web::pdf` — the iCalendar feed (escaping, line folding,
    stable event identifiers) and the Typst source of the schedule PDF.
  - `web::admin` — what the admin pages show and what a form submission
    does next (asking before closing a previous ownership or tenancy).
  - `web::guard` — Basic authentication, the per-minute rate limit and the
    demo banner.
  - `i18n` — the German/English catalog, placeholder substitution, the
    entries of the `Accept-Language` header, and the choice of language
    between cookie, browser preference and German. The browser's `q`
    weights are floating-point numbers, so `app/` ranks the entries.
  - `backup` — backup configuration, object names per hourly/daily/weekly/
    yearly slot, when a run stores or skips, and the checks of `verify`.
  - `config` — port settings and the bind-retry state machine.
  - `dates`, `text` — calendar and string helpers: the Gregorian and ISO-week
    calendar stated in a few lines, with its laws (year lengths, ISO years
    following each other); the calls into chrono and the other outside
    crates sit behind small trusted wrappers.
- `tests/` runs the library on concrete values.
- `app/` is the server around it: axum routes and handlers, askama
  templates, sqlx queries, the object store, Typst and the clock.
