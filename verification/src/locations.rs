//! Where each object of a fuse table is stored, relative to the table's storage prefix.
use vstd::prelude::*;
use vstd::string::*;
use crate::constants::{
    BLOCK_FILTER_VERSION, DATA_BLOCK_VERSION, FUSE_TBL_AGG_INDEX_PREFIX, FUSE_TBL_BLOCK_PREFIX,
    FUSE_TBL_INVERTED_INDEX_PREFIX, FUSE_TBL_LAST_SNAPSHOT_HINT, FUSE_TBL_SEGMENT_PREFIX,
    FUSE_TBL_VIRTUAL_BLOCK_PREFIX, FUSE_TBL_XOR_BLOOM_INDEX_PREFIX, INVERTED_INDEX_FILE_VERSION,
    SEGMENT_INFO_VERSION,
};
use crate::ids::{new_random_uuid, uuid_simple, uuid_simple_string, uuid_version};
use crate::text::{
    append_chars, chars_end_with, chars_of, decimal, ends_with, join_first, join_with,
    push_chars, push_decimal, replace_all, replace_chars, split_chars, split_on, string_of,
    views,
};
use crate::versions::{
    spec_trim_vacuum2_object_prefix, trim_object_key, LocationError, SnapshotVersion,
    TableSnapshotStatisticsVersion,
};

verus! {

/// Builds the locations of a table's objects from the table's storage prefix and, for data
/// blocks, a prefix of the block's object name.
#[derive(Clone)]
pub struct TableMetaLocationGenerator {
    prefix: String,
    part_prefix: String,
}

/// `s` cut to its first `n` characters (all of it when it is shorter).
pub open spec fn first_chars(s: Seq<char>, n: nat) -> Seq<char> {
    if s.len() <= n {
        s
    } else {
        s.take(n as int)
    }
}

/// The prefix of a block location that precedes its block directory: the pieces of `loc`
/// between '/' but the last two, joined by '/'.
pub open spec fn table_part_of(loc: Seq<char>) -> Seq<char> {
    let pieces = split_on(loc, '/');
    join_with(pieces.take(pieces.len() - 2), "/"@)
}

/// The object name of `loc`, after its last '/', without the leading
/// `VACUUM2_OBJECT_KEY_PREFIX`.
pub open spec fn block_name_of(loc: Seq<char>) -> Seq<char> {
    let pieces = split_on(loc, '/');
    spec_trim_vacuum2_object_prefix(pieces[pieces.len() - 1])
}

/// The version number that a snapshot location's suffix names; 0 when it names none.
pub open spec fn spec_snapshot_version(location: Seq<char>) -> u64 {
    if ends_with(location, SnapshotVersion::V4.spec_suffix()) {
        4
    } else if ends_with(location, SnapshotVersion::V3.spec_suffix()) {
        3
    } else if ends_with(location, SnapshotVersion::V2.spec_suffix()) {
        2
    } else if ends_with(location, SnapshotVersion::V1.spec_suffix()) {
        1
    } else {
        0
    }
}

/// The version number that a snapshot-statistics location's suffix names; 3 when it names
/// neither 0 nor 2.
pub open spec fn spec_table_statistics_version(location: Seq<char>) -> u64 {
    if ends_with(location, TableSnapshotStatisticsVersion::V0.spec_suffix()) {
        0
    } else if ends_with(location, TableSnapshotStatisticsVersion::V2.spec_suffix()) {
        2
    } else {
        3
    }
}

/// The location of the aggregating index `index_id` of the block at `loc`.
pub open spec fn spec_agg_index_location(loc: Seq<char>, index_id: u64) -> Seq<char> {
    table_part_of(loc) + "/"@ + FUSE_TBL_AGG_INDEX_PREFIX@ + "/"@ + decimal(index_id as nat)
        + "/"@ + block_name_of(loc)
}

/// The location of the inverted index `index_name` in version `index_version` of the block
/// at `loc`.
pub open spec fn spec_inverted_index_location(
    loc: Seq<char>,
    index_name: Seq<char>,
    index_version: Seq<char>,
) -> Seq<char> {
    table_part_of(loc) + "/"@ + FUSE_TBL_INVERTED_INDEX_PREFIX@ + "/"@ + index_name + "/"@
        + first_chars(index_version, 7) + "/"@ + first_chars(block_name_of(loc), 32) + "_v"@
        + decimal(INVERTED_INDEX_FILE_VERSION as nat) + ".index"@
}

/// Splitting at a separator that occurs gives at least two pieces.
pub proof fn lemma_split_contains(s: Seq<char>, sep: char)
    requires
        s.contains(sep),
    ensures
        split_on(s, sep).len() >= 2,
    decreases s.len(),
{
    crate::text::lemma_split_nonempty(s, sep);
    if s.last() != sep {
        let k = choose|k: int| 0 <= k < s.len() && s[k] == sep;
        assert(s.drop_last()[k] == sep);
        lemma_split_contains(s.drop_last(), sep);
    } else {
        crate::text::lemma_split_nonempty(s.drop_last(), sep);
    }
}

impl TableMetaLocationGenerator {
    /// The storage prefix of the table.
    pub closed spec fn spec_prefix(&self) -> Seq<char> {
        self.prefix@
    }

    /// The prefix of the object names of data blocks.
    pub closed spec fn spec_part_prefix(&self) -> Seq<char> {
        self.part_prefix@
    }

    /// The location and format version of the data block `part_uuid`.
    pub open spec fn spec_block_location(&self, part_uuid: u128) -> Seq<char> {
        self.spec_prefix() + "/"@ + FUSE_TBL_BLOCK_PREFIX@ + "/"@ + "g"@ + self.spec_part_prefix()
            + uuid_simple(part_uuid) + "_v"@ + decimal(DATA_BLOCK_VERSION as nat) + ".parquet"@
    }

    /// The location of the bloom-filter index of block `block_id`.
    pub open spec fn spec_bloom_index_location(&self, block_id: u128) -> Seq<char> {
        self.spec_prefix() + "/"@ + FUSE_TBL_XOR_BLOOM_INDEX_PREFIX@ + "/"@ + uuid_simple(block_id)
            + "_v"@ + decimal(BLOCK_FILTER_VERSION as nat) + ".parquet"@
    }

    /// The location of segment `segment_uuid`.
    pub open spec fn spec_segment_location(&self, segment_uuid: u128) -> Seq<char> {
        self.spec_prefix() + "/"@ + FUSE_TBL_SEGMENT_PREFIX@ + "/"@ + uuid_simple(segment_uuid)
            + "_v"@ + decimal(SEGMENT_INFO_VERSION as nat) + ".mpk"@
    }

    /// A generator for the table stored under `prefix`, with no block-name prefix.
    pub fn with_prefix(prefix: String) -> (g: Self)
        ensures
            g.spec_prefix() == prefix@,
            g.spec_part_prefix() == Seq::<char>::empty(),
    {
        TableMetaLocationGenerator { prefix, part_prefix: String::new() }
    }

    /// This generator with `part_prefix` as the prefix of block object names.
    pub fn with_part_prefix(self, part_prefix: String) -> (g: Self)
        ensures
            g.spec_prefix() == self.spec_prefix(),
            g.spec_part_prefix() == part_prefix@,
    {
        TableMetaLocationGenerator { prefix: self.prefix, part_prefix }
    }

    /// The storage prefix of the table.
    pub fn prefix(&self) -> (p: &str)
        ensures
            p@ == self.spec_prefix(),
    {
        self.prefix.as_str()
    }

    /// The prefix of block object names.
    pub fn part_prefix(&self) -> (p: &str)
        ensures
            p@ == self.spec_part_prefix(),
    {
        self.part_prefix.as_str()
    }

    /// The location of data block `part_uuid`, with the data-block format version.
    pub fn block_location_from_uuid(&self, part_uuid: u128) -> (r: (String, u64))
        ensures
            r.0@ == self.spec_block_location(part_uuid),
            r.1 == DATA_BLOCK_VERSION,
    {
        let mut s = String::from_str(self.prefix.as_str());
        s.append("/");
        s.append(FUSE_TBL_BLOCK_PREFIX);
        s.append("/");
        s.append("g");
        s.append(self.part_prefix.as_str());
        let simple = uuid_simple_string(part_uuid);
        s.append(simple.as_str());
        s.append("_v");
        push_decimal(&mut s, DATA_BLOCK_VERSION);
        s.append(".parquet");
        (s, DATA_BLOCK_VERSION)
    }

    /// A new data block: a fresh random (version 4) UUID and its location with the data-block
    /// format version.
    pub fn gen_block_location(&self) -> (r: ((String, u64), u128))
        ensures
            uuid_version(r.1) == 4,
            r.0.0@ == self.spec_block_location(r.1),
            r.0.1 == DATA_BLOCK_VERSION,
    {
        let part_uuid = new_random_uuid();
        (self.block_location_from_uuid(part_uuid), part_uuid)
    }

    /// The location of the bloom-filter index of block `block_id`, with the index format
    /// version.
    pub fn block_bloom_index_location(&self, block_id: u128) -> (r: (String, u64))
        ensures
            r.0@ == self.spec_bloom_index_location(block_id),
            r.1 == BLOCK_FILTER_VERSION,
    {
        let mut s = String::from_str(self.prefix.as_str());
        s.append("/");
        s.append(FUSE_TBL_XOR_BLOOM_INDEX_PREFIX);
        s.append("/");
        let simple = uuid_simple_string(block_id);
        s.append(simple.as_str());
        s.append("_v");
        push_decimal(&mut s, BLOCK_FILTER_VERSION);
        s.append(".parquet");
        (s, BLOCK_FILTER_VERSION)
    }

    /// The location of segment `segment_uuid`.
    pub fn segment_info_location_from_uuid(&self, segment_uuid: u128) -> (r: String)
        ensures
            r@ == self.spec_segment_location(segment_uuid),
    {
        let mut s = String::from_str(self.prefix.as_str());
        s.append("/");
        s.append(FUSE_TBL_SEGMENT_PREFIX);
        s.append("/");
        let simple = uuid_simple_string(segment_uuid);
        s.append(simple.as_str());
        s.append("_v");
        push_decimal(&mut s, SEGMENT_INFO_VERSION);
        s.append(".mpk");
        s
    }

    /// The location of a new segment, named by a fresh random (version 4) UUID.
    pub fn gen_segment_info_location(&self) -> (r: String)
        ensures
            exists|id: u128| uuid_version(id) == 4 && r@ == self.spec_segment_location(id),
    {
        let segment_uuid = new_random_uuid();
        self.segment_info_location_from_uuid(segment_uuid)
    }

    /// The location of snapshot `id` in format version `version`; an error when `version`
    /// names no snapshot format.
    pub fn snapshot_location_from_uuid(&self, id: u128, version: u64) -> (r: Result<
        String,
        LocationError,
    >)
        ensures
            match SnapshotVersion::spec_from_number(version) {
                Some(v) => r is Ok && r->Ok_0@ == v.spec_create(id, self.spec_prefix()),
                None => r == Err::<String, LocationError>(
                    LocationError::UnknownSnapshotVersion(version),
                ),
            },
    {
        match SnapshotVersion::try_from_number(version) {
            Ok(v) => Ok(v.create(id, self.prefix.as_str())),
            Err(e) => Err(e),
        }
    }

    /// The snapshot format version named by the suffix of `location`; 0 when no suffix of
    /// a later version ends it.
    pub fn snapshot_version(location: &str) -> (v: u64)
        ensures
            v == spec_snapshot_version(location@),
    {
        let chars = chars_of(location);
        let s4 = chars_of(SnapshotVersion::V4.suffix().as_str());
        let s3 = chars_of(SnapshotVersion::V3.suffix().as_str());
        let s2 = chars_of(SnapshotVersion::V2.suffix().as_str());
        let s1 = chars_of(SnapshotVersion::V1.suffix().as_str());
        if chars_end_with(chars.as_slice(), s4.as_slice()) {
            SnapshotVersion::V4.version()
        } else if chars_end_with(chars.as_slice(), s3.as_slice()) {
            SnapshotVersion::V3.version()
        } else if chars_end_with(chars.as_slice(), s2.as_slice()) {
            SnapshotVersion::V2.version()
        } else if chars_end_with(chars.as_slice(), s1.as_slice()) {
            SnapshotVersion::V1.version()
        } else {
            SnapshotVersion::V0.version()
        }
    }

    /// The location of the statistics of snapshot `id` in format version `version`; an error
    /// when `version` names no statistics format.
    pub fn snapshot_statistics_location_from_uuid(&self, id: u128, version: u64) -> (r: Result<
        String,
        LocationError,
    >)
        ensures
            match TableSnapshotStatisticsVersion::spec_from_number(version) {
                Some(v) => r is Ok && r->Ok_0@ == v.spec_create(id, self.spec_prefix()),
                None => r == Err::<String, LocationError>(
                    LocationError::UnknownStatisticsVersion(version),
                ),
            },
    {
        match TableSnapshotStatisticsVersion::try_from_number(version) {
            Ok(v) => Ok(v.create(id, self.prefix.as_str())),
            Err(e) => Err(e),
        }
    }

    /// The location of the hint that points at the table's last snapshot.
    pub fn gen_last_snapshot_hint_location(&self) -> (r: String)
        ensures
            r@ == self.spec_prefix() + "/"@ + FUSE_TBL_LAST_SNAPSHOT_HINT@,
    {
        let mut s = String::from_str(self.prefix.as_str());
        s.append("/");
        s.append(FUSE_TBL_LAST_SNAPSHOT_HINT);
        s
    }

    /// The location of the virtual-column block of the block at `location`: every occurrence
    /// of the block directory name replaced by the virtual-block directory name.
    pub fn gen_virtual_block_location(location: &str) -> (r: String)
        ensures
            r@ == replace_all(location@, FUSE_TBL_BLOCK_PREFIX@, FUSE_TBL_VIRTUAL_BLOCK_PREFIX@),
    {
        let chars = chars_of(location);
        let from = chars_of(FUSE_TBL_BLOCK_PREFIX);
        let to = chars_of(FUSE_TBL_VIRTUAL_BLOCK_PREFIX);
        proof {
            reveal_strlit("_b");
        }
        let replaced = replace_chars(chars.as_slice(), from.as_slice(), to.as_slice());
        string_of(replaced.as_slice())
    }

    /// The statistics format version named by the suffix of `table_statistics_location`; 3
    /// when it names neither 0 nor 2.
    pub fn table_statistics_version(table_statistics_location: &str) -> (v: u64)
        ensures
            v == spec_table_statistics_version(table_statistics_location@),
    {
        let chars = chars_of(table_statistics_location);
        let s0 = chars_of(TableSnapshotStatisticsVersion::V0.suffix().as_str());
        let s2 = chars_of(TableSnapshotStatisticsVersion::V2.suffix().as_str());
        if chars_end_with(chars.as_slice(), s0.as_slice()) {
            TableSnapshotStatisticsVersion::V0.version()
        } else if chars_end_with(chars.as_slice(), s2.as_slice()) {
            TableSnapshotStatisticsVersion::V2.version()
        } else {
            TableSnapshotStatisticsVersion::V3.version()
        }
    }

    /// The location of the aggregating index `index_id` of the block at `loc`: the table part
    /// of `loc`, the aggregating-index directory, the index id and the block's object name
    /// without its leading marker.
    pub fn gen_agg_index_location_from_block_location(loc: &str, index_id: u64) -> (r: String)
        requires
            loc@.contains('/'),
        ensures
            r@ == spec_agg_index_location(loc@, index_id),
    {
        let chars = chars_of(loc);
        let pieces = split_chars(chars.as_slice(), '/');
        proof {
            lemma_split_contains(chars@, '/');
        }
        let len = pieces.len();
        let slash = chars_of("/");
        let table_part = join_first(pieces.as_slice(), len - 2, slash.as_slice());
        let block_name = trim_object_key(pieces[len - 1].as_slice());
        assert(views(pieces@).take(len - 2) == split_on(loc@, '/').take(len - 2));
        let mut s = string_of(table_part.as_slice());
        s.append("/");
        s.append(FUSE_TBL_AGG_INDEX_PREFIX);
        s.append("/");
        push_decimal(&mut s, index_id);
        s.append("/");
        push_chars(&mut s, block_name.as_slice());
        s
    }

    /// The location of the inverted index `index_name` in version `index_version` of the
    /// block at `loc`: the table part of `loc`, the inverted-index directory, the index name,
    /// the first 7 characters of the version, and the first 32 characters of the block's
    /// object name without its leading marker.
    pub fn gen_inverted_index_location_from_block_location(
        loc: &str,
        index_name: &str,
        index_version: &str,
    ) -> (r: String)
        requires
            loc@.contains('/'),
        ensures
            r@ == spec_inverted_index_location(loc@, index_name@, index_version@),
    {
        let chars = chars_of(loc);
        let pieces = split_chars(chars.as_slice(), '/');
        proof {
            lemma_split_contains(chars@, '/');
        }
        let len = pieces.len();
        let slash = chars_of("/");
        let table_part = join_first(pieces.as_slice(), len - 2, slash.as_slice());
        let block_name = trim_object_key(pieces[len - 1].as_slice());
        assert(views(pieces@).take(len - 2) == split_on(loc@, '/').take(len - 2));
        let id = take_chars(block_name.as_slice(), 32);
        let version_chars = chars_of(index_version);
        let short_ver = take_chars(version_chars.as_slice(), 7);
        let mut s = string_of(table_part.as_slice());
        s.append("/");
        s.append(FUSE_TBL_INVERTED_INDEX_PREFIX);
        s.append("/");
        s.append(index_name);
        s.append("/");
        push_chars(&mut s, short_ver.as_slice());
        s.append("/");
        push_chars(&mut s, id.as_slice());
        s.append("_v");
        push_decimal(&mut s, INVERTED_INDEX_FILE_VERSION);
        s.append(".index");
        s
    }
}

/// The first `n` characters of `s` (all of them when there are fewer).
pub fn take_chars(s: &[char], n: usize) -> (r: Vec<char>)
    ensures
        r@ == first_chars(s@, n as nat),
{
    let mut out: Vec<char> = Vec::new();
    let mut i: usize = 0;
    while i < n && i < s.len()
        invariant
            i <= s@.len(),
            i <= n,
            out@ == s@.take(i as int),
        decreases s.len() - i,
    {
        out.push(s[i]);
        assert(s@.take(i + 1) =~= s@.take(i as int).push(s@[i as int]));
        i = i + 1;
    }
    assert(s@.len() <= n ==> s@.take(s@.len() as int) =~= s@);
    out
}

} // verus!
