# ffi_rs

Calling C functions from Node.js: type descriptions, struct layouts, foreign-call
types, freeing plans and the registry of opened libraries, verified with Verus.

- `src/define.rs`: data types and their numbers, errors, the value model (`RsArgsValue`)
  and field lookup.
- `src/utils/`: reading descriptors (`dataprocess`), struct layout and field offsets
  (`object_utils`), foreign-call types (`pointer`).
- `src/datatype/`: freeing plans for memory made here or by foreign code (`pointer`),
  wide C strings (`string`).
- `src/library.rs`, `src/assoc.rs`: opened libraries and the symbols looked up in them.
- `app/`: the Node.js addon (N-API, dlopen, libffi), which performs the memory work and
  the calls that the library describes.

Design notes:

- An object's fields are a `Vec` of key/value pairs in order (`FieldList`), read and set
  through `map_get`, `insert_field` and `get_array_value`, whose contracts give the
  ordered-map behaviour. The value type recurses through its fields; Verus does not
  accept that recursion through an ordered map from another crate (declared as an outside
  type, the recursion is refused; hidden behind an opaque struct, recursive definitions
  over its contents cannot be shown to terminate), so the list is a `Vec`.
- The registry of opened libraries is an association list (`AssocList`) viewed as a map
  keyed by the library name, since a std `HashMap` keyed by `String` gives no usable
  contract for its lookups.
- Wide strings are UTF-32 (32-bit units, the width of `wchar_t` outside Windows).
