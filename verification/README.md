# Dulac My Camp API

Booking and calendar service for a private fishing camp in Dulac, Louisiana:
family and friends request dates, the owner approves or denies them with one
click from an email, and everyone can see the calendar, the weather, the
tides and the moon.

The rules of the service live in a library whose behaviour is stated as
contracts and proved with [Verus](https://github.com/verus-lang/verus); the
HTTP server around it is ordinary Rust.

```
src/     the proved library (crate `dulacmycamp_api`)
app/     the Axum server: routes, database, mail, upstream feeds
tests/   tests of the library against concrete values
```

## The library

| Module | What it decides |
|---|---|
| `bookings` | who may see what of a booking, which requests are refused, cancellation and deletion gates, one-click link checks, advisory capacity/overlap warnings, the notices each step sends |
| `rate_limit` | the sliding-window throttles in front of sign-in, and the client address they key on |
| `auth`, `password` | session claims, bearer tokens, login codes, the admin password policy and its single failure answer |
| `journal` | who may write and read a stay's story, catch-log validation, which existing catch rows a save keeps, feed paging |
| `checkout`, `checkin_info`, `my_stay` | check-out eligibility, arrival-detail access, the "my stay" card |
| `content_access`, `site_content` | role- and booking-based section access, landing-page content validation, the photo album gate |
| `uploads` | accepted image types and sizes, and how each format is stored |
| `holidays`, `dates` | US holiday rules in closed form; calendar arithmetic and date rendering |
| `email_templates` | every email and HTML page; guest-supplied text in the HTML parts goes through `esc` |
| `config`, `users`, `events`, `checklist`, `fish_species`, `notifications`, `text`, `error` | configuration defaults, account rules, admin content validation, text helpers, and the error envelope |
| `solunar`, `weather` | the fishing star rating and its adjustments; which forecast periods become days and their lows; the tide-curve request |

Calls into outside crates (`uuid`, `rand`, `argon2`, `image`, `chrono`,
`axum`'s header type) go through small wrappers whose contracts state what
those crates document.

## The server

`app/` holds `main`, the router, the SQL, mail delivery, JWT signing and
signature checks (`jsonwebtoken`), the NOAA feeds and their JSON, and the moon
and sun astronomy, which is floating point and so stays outside the library.
The booking, access and validation decisions it makes are calls into the
library.

Required environment: `DATABASE_URL` and `JWT_SECRET`; see `config.rs` for
the defaults of the rest. Schema migrations are read from `./migrations` at
start-up.
