# vstui

A terminal browser for macOS audio plugins (VST2, VST3 and Audio Units),
with its logic written in Verus and proved against its contracts.

- `src/` is the verified library:
  - `text.rs`: character-level helpers (search, Unicode white-space trimming, ASCII case, decimal numerals);
  - `order.rs`: three-way comparisons and the lexicographic order;
  - `paths.rs`: file names, stems, extensions, prefixes and the order of paths, read from the components `std::path` finds;
  - `plugin.rs`: plugins, formats, scopes, bundle recognition, family keys, property-list values;
  - `roots.rs`: the standard plugin directories and the cache file;
  - `scan.rs`: turning directory listings into plugins;
  - `cache.rs`: list order and sorting, cache freshness, the clock;
  - `app.rs`: the browser state and its reaction to keys, refreshes and deletions;
  - `screen.rs`, `layout.rs`: the text of every pane and popup, and where they go;
  - `remove.rs`: the checks made before and after deleting a bundle, and the tally of a round of deletions;
  - `laws.rs`: properties that span several operations.
- `app/` is the program around it: the terminal, the keyboard, the file system and the JSON cache.
- `tests/` runs the library on concrete values.
