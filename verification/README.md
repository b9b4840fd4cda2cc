# mvdis_license_plate_query

Queries the license plate numbers that Taiwan's motor vehicle stations offer for
picking, with their prices, from the site of the Directorate General of Highways
(`https://www.mvdis.gov.tw`).

## Layout

- `src/` — the library, written in Verus and verified:
  - `options.rs`: plate styles, vehicle and energy kinds, plate kinds, regional
    offices, stations and windows, with their form codes and display names, which
    plate kinds belong to a vehicle and energy kind, and which stations to a regional
    office; the laws that tie these lists together.
  - `lib.rs`: the client, the query builder and the answered query: request
    addresses, the fields of the query form, the rejected captcha, the link to the
    next page, and the plates and prices read from a page of results.
  - `text.rs`: whitespace trimming, character removal, substring search and the
    reading of decimal integers, each proved against a specification.
  - `html.rs`: the calls into `scraper` that search the site's pages, with the names
    their results are given.
  - `ocr.rs`: the error of the captcha reader.
  - `pool.rs`: the plan of a pool of queries, when a query is retried, and the
    plates gathered by station.
- `app/` — ordinary Rust around the library: the HTTP requests (`reqwest`), the
  captcha reader (`ddddocr`) and the pool that runs queries concurrently (`tokio`).
- `tests/` — tests of the library.
