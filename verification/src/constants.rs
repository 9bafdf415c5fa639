//! Directory names, file-name markers and format versions of a fuse table's objects.
use vstd::prelude::*;

verus! {

/// Directory of data blocks.
pub const FUSE_TBL_BLOCK_PREFIX: &'static str = "_b";

/// Directory of virtual-column blocks.
pub const FUSE_TBL_VIRTUAL_BLOCK_PREFIX: &'static str = "_vb";

/// Directory of segments.
pub const FUSE_TBL_SEGMENT_PREFIX: &'static str = "_sg";

/// Directory of snapshots.
pub const FUSE_TBL_SNAPSHOT_PREFIX: &'static str = "_ss";

/// Directory of snapshot statistics.
pub const FUSE_TBL_SNAPSHOT_STATISTICS_PREFIX: &'static str = "_ts";

/// Directory of bloom-filter indexes.
pub const FUSE_TBL_XOR_BLOOM_INDEX_PREFIX: &'static str = "_i_b_v2";

/// Directory of aggregating indexes.
pub const FUSE_TBL_AGG_INDEX_PREFIX: &'static str = "_i_a";

/// Directory of inverted indexes.
pub const FUSE_TBL_INVERTED_INDEX_PREFIX: &'static str = "_i_i";

/// Name of the object that points at the last snapshot.
pub const FUSE_TBL_LAST_SNAPSHOT_HINT: &'static str = "last_snapshot_location_hint";

/// Leading marker of object names whose UUID orders by time.
pub const VACUUM2_OBJECT_KEY_PREFIX: &'static str = "g";

/// Format version of data blocks.
pub const DATA_BLOCK_VERSION: u64 = 2;

/// Format version of bloom-filter indexes.
pub const BLOCK_FILTER_VERSION: u64 = 4;

/// Format version of segments.
pub const SEGMENT_INFO_VERSION: u64 = 4;

/// Format version of inverted index files.
pub const INVERTED_INDEX_FILE_VERSION: u64 = 1;

} // verus!
