//! Natural sorting of strings, paths and Python-style flag sets: numbers
//! compare by value (any size, signs, fractions, exponents, any script's
//! digits), text by code point or by a locale's collation, paths component
//! by component, and files as Windows Explorer or a Unix file browser order
//! them.
#![allow(unused_imports)]

pub mod algorithm;
pub mod benchmark;
pub mod api;
pub mod chars;
pub mod cli;
pub mod decode;
pub mod key;
pub mod locale;
pub mod number;
pub mod number_value;
pub mod options;
pub mod order;
pub mod os_sort;
pub mod path;
pub mod python_compat;
pub mod sort;
pub mod text;
pub mod token;
pub mod unicode_numeric;
pub mod value;

pub use algorithm::{
    AlgorithmFlags, NumericRegexKind, numeric_regex_chooser, numeric_regex_chooser_from_bits,
};
pub use api::{
    NaturalPath, OrderByIndexError, index_natsorted_paths, index_natsorted_paths_with_options,
    natsorted_paths, natsorted_paths_with_options, humansorted, humansorted_by_key, humansorted_by_key_with_options,
    humansorted_with_options, index_humansorted, index_humansorted_with_options, index_natsorted,
    index_natsorted_with_options, index_realsorted, index_realsorted_with_options,
    natsorted, natsorted_by_key, natsorted_by_key_with_options, natsorted_with_options,
    order_by_index, order_by_index_iter, realsorted, realsorted_by_key,
    realsorted_by_key_with_options, realsorted_with_options, try_order_by_index,
    try_order_by_index_iter,
};
pub use decode::{
    DecodeEncoding, DecodeError, Decoder, UnsupportedEncodingError, decode_ascii_bytes,
    decode_latin1_bytes, decode_utf8_bytes, decoder,
};
pub use locale::{LocaleProfile, LocaleSymbols, system_locale_identifier};
pub use options::SortOptions;
pub use os_sort::{
    OsSortKey, OsSortKeyGenerator, OsSortOptions, OsSortProfile, index_os_sorted,
    index_os_sorted_by_key, index_os_sorted_by_key_with_options, index_os_sorted_with_options,
    os_sort_key, os_sort_key_with_options, os_sort_keygen, os_sort_keygen_with_options,
    os_sorted, os_sorted_by_key, os_sorted_by_key_with_options, os_sorted_with_options,
};
pub use cli::CliNumberType;
pub use python_compat::{
    PythonUnicodeTables, python_decode_bytes, python_final_transform_mode, python_group_letters,
    python_input_transform, python_input_transform_is_noop, python_normalize_string,
    python_parse_bytes, python_parse_string_plan, python_path_components, python_separator_plan,
    python_unicode_tables,
};
pub use sort::NaturalText;
pub use value::{
    FloatClass, KeyAtom, NaturalKey, NaturalKeyGenerator, NumericKey, natsort_keygen,
    natsort_keygen_with_options,
};
