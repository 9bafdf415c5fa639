# fuse_locations

Verified naming of the objects of a fuse table (data blocks, indexes, segments, snapshots and
their statistics) under the table's storage prefix, the reading of format versions back from
object names, and the row rules of the JSON (variant) scalar functions.

- `src/locations.rs`: `TableMetaLocationGenerator` and the exact form of every location.
- `src/versions.rs`: snapshot and statistics format versions, their suffixes and locations.
- `src/ids.rs`: UUIDs as 128-bit values; their text form and version field (uuid crate).
- `src/text.rs`: characters, splitting, joining, replacing and decimal digits, with lemmas.
- `src/laws.rs`: properties that span functions (version round trips, index locations of
  generated blocks, virtual-block locations).
- `src/variant.rs`: NULL, error and pass-through rules of the JSON functions.
- `app/lib.rs`: the same entry points over `uuid::Uuid` values.
