# dots_family

The decision-making core of DOTS Family Mode, a parental-control system for
Linux desktops, written in Verus and proved against its contracts.

## Layout

- `src/` — the verified library.
  - `rules.rs`, `filter_engine.rs`, `filter_config.rs`, `web.rs`: the web
    filter. URLs are decided by blocked domains, then URL patterns in order,
    then allowed by default; search engines get safe-search parameters; the
    block page escapes what it shows. URL parsing and regular expressions are
    done by the `url` and `regex` crates behind small trusted wrappers.
  - `cert_cache.rs`: the proxy's cache of site certificates, an
    `lru::LruCache` with contracts on lookups and insertions.
  - `monitor.rs`, `activity.rs`: the activity monitor. The tracker reports
    how long each focused window kept the focus; the Sway window tree search,
    compositor choice and heartbeat counter live here too.
  - `profile.rs`, `gui/`: child profiles, the profile store and the state
    machines of the management window's views. Each view takes a message and
    returns its new state and the work left to the window.
  - `db.rs`: records written to the family database and the decisions made
    around its queries.
  - `ebpf.rs`: the event records of the kernel monitors and the arithmetic
    that fills them.
  - `text.rs`, `strset.rs`: HTML escaping, Unicode trimming, comma-separated
    lists, decimal formatting and a duplicate-free string set.
- `tests/` — tests of the library on concrete values.
- `app/` — the command-line program around the library: configuration files,
  compositor queries and the monitor's polling loop.
