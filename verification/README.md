# natsort

Natural sorting with machine-checked contracts: numbers in text compare by
value (any length, signs, fractions, exponents, the digits of any script),
text by code point or by a locale's collation, paths component by
component, and file names as Windows Explorer or a Unix file browser order
them. The library is written in Verus; each public function states what it
returns, and the laws of the library (sorting twice changes nothing, the
key orders are total preorders, reversing reverses, equal keys keep their
order, decoding round-trips) are proved.

- `src/` — the verified library. `order.rs` holds three-way comparisons and
  their laws; `number.rs`, `token.rs`, `text.rs`, `path.rs`, `locale.rs`
  and `key.rs` build natural keys; `sort.rs` and `api.rs` sort;
  `os_sort.rs` orders like file browsers; `value.rs` keys mixed values;
  `decode.rs`, `cli.rs`, `benchmark.rs` and `python_compat.rs` hold the
  decisions of the decoders, the command-line tools and the Python bridge.
- `tests/` — tests of the library.
- `app/` — the `natsort` command-line program, and the parts that hold
  floating-point numbers, big integers, files, the clock or the
  environment.
