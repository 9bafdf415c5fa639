//! Snapshot and snapshot-statistics format versions, and the object keys they name.
use vstd::prelude::*;
use vstd::string::*;
use crate::constants::{
    FUSE_TBL_SNAPSHOT_PREFIX, FUSE_TBL_SNAPSHOT_STATISTICS_PREFIX, VACUUM2_OBJECT_KEY_PREFIX,
};
use crate::ids::{uuid_is_sort_rand, uuid_simple, uuid_simple_string, uuid_version};
use crate::text::{append_chars, chars_of, occurs_at, string_of};

verus! {

/// Why a location could not be formed.
#[derive(Debug, Clone, Copy, PartialEq, Eq, Structural)]
pub enum LocationError {
    /// The snapshot format version is none of 0, 1, 2, 3, 4.
    UnknownSnapshotVersion(u64),
    /// The snapshot-statistics format version is none of 0, 2, 3.
    UnknownStatisticsVersion(u64),
}

/// The format versions of table snapshots.
#[derive(Debug, Clone, Copy, PartialEq, Eq, Structural)]
pub enum SnapshotVersion {
    V0,
    V1,
    V2,
    V3,
    V4,
}

impl SnapshotVersion {
    /// The version number.
    pub open spec fn spec_version(self) -> u64 {
        match self {
            SnapshotVersion::V0 => 0,
            SnapshotVersion::V1 => 1,
            SnapshotVersion::V2 => 2,
            SnapshotVersion::V3 => 3,
            SnapshotVersion::V4 => 4,
        }
    }

    /// The end of the object name of a snapshot in this version.
    pub open spec fn spec_suffix(self) -> Seq<char> {
        match self {
            SnapshotVersion::V0 => Seq::<char>::empty(),
            SnapshotVersion::V1 => "_v1.json"@,
            SnapshotVersion::V2 => "_v2.json"@,
            SnapshotVersion::V3 => "_v3.bincode"@,
            SnapshotVersion::V4 => "_v4.mpk"@,
        }
    }

    /// The version numbered `version`, if there is one.
    pub open spec fn spec_from_number(version: u64) -> Option<SnapshotVersion> {
        if version == 0 {
            Some(SnapshotVersion::V0)
        } else if version == 1 {
            Some(SnapshotVersion::V1)
        } else if version == 2 {
            Some(SnapshotVersion::V2)
        } else if version == 3 {
            Some(SnapshotVersion::V3)
        } else if version == 4 {
            Some(SnapshotVersion::V4)
        } else {
            None
        }
    }

    /// The version number.
    pub fn version(&self) -> (v: u64)
        ensures
            v == self.spec_version(),
    {
        match self {
            SnapshotVersion::V0 => 0,
            SnapshotVersion::V1 => 1,
            SnapshotVersion::V2 => 2,
            SnapshotVersion::V3 => 3,
            SnapshotVersion::V4 => 4,
        }
    }

    /// The version numbered `version`; an error for any other number.
    pub fn try_from_number(version: u64) -> (r: Result<SnapshotVersion, LocationError>)
        ensures
            match SnapshotVersion::spec_from_number(version) {
                Some(v) => r == Ok::<SnapshotVersion, LocationError>(v),
                None => r == Err::<SnapshotVersion, LocationError>(
                    LocationError::UnknownSnapshotVersion(version),
                ),
            },
    {
        if version == 0 {
            Ok(SnapshotVersion::V0)
        } else if version == 1 {
            Ok(SnapshotVersion::V1)
        } else if version == 2 {
            Ok(SnapshotVersion::V2)
        } else if version == 3 {
            Ok(SnapshotVersion::V3)
        } else if version == 4 {
            Ok(SnapshotVersion::V4)
        } else {
            Err(LocationError::UnknownSnapshotVersion(version))
        }
    }

    /// The end of the object name of a snapshot in this version.
    pub fn suffix(&self) -> (s: String)
        ensures
            s@ == self.spec_suffix(),
    {
        match self {
            SnapshotVersion::V0 => String::new(),
            SnapshotVersion::V1 => String::from_str("_v1.json"),
            SnapshotVersion::V2 => String::from_str("_v2.json"),
            SnapshotVersion::V3 => String::from_str("_v3.bincode"),
            SnapshotVersion::V4 => String::from_str("_v4.mpk"),
        }
    }

    /// The location of the snapshot `id` of the table stored under `prefix`.
    pub open spec fn spec_create(self, id: u128, prefix: Seq<char>) -> Seq<char> {
        prefix + "/"@ + FUSE_TBL_SNAPSHOT_PREFIX@ + "/"@ + vacuum_marker(id) + uuid_simple(id)
            + self.spec_suffix()
    }

    /// The location of the snapshot `id` of the table stored under `prefix`: the snapshot
    /// directory, the object-name marker for time-ordered ids, the id's hex digits and this
    /// version's suffix.
    pub fn create(&self, id: u128, prefix: &str) -> (s: String)
        ensures
            s@ == self.spec_create(id, prefix@),
    {
        let mut s = String::from_str(prefix);
        s.append("/");
        s.append(FUSE_TBL_SNAPSHOT_PREFIX);
        s.append("/");
        if uuid_is_sort_rand(id) {
            s.append(VACUUM2_OBJECT_KEY_PREFIX);
        }
        let simple = uuid_simple_string(id);
        s.append(simple.as_str());
        let suffix = self.suffix();
        s.append(suffix.as_str());
        s
    }
}

/// The marker that leads the object name of `id`: `VACUUM2_OBJECT_KEY_PREFIX` when `id` is a
/// time-ordered (version 7) UUID, nothing otherwise.
pub open spec fn vacuum_marker(id: u128) -> Seq<char> {
    if uuid_version(id) == 7 {
        VACUUM2_OBJECT_KEY_PREFIX@
    } else {
        Seq::<char>::empty()
    }
}

/// The format versions of table snapshot statistics.
#[derive(Debug, Clone, Copy, PartialEq, Eq, Structural)]
pub enum TableSnapshotStatisticsVersion {
    V0,
    V2,
    V3,
}

impl TableSnapshotStatisticsVersion {
    /// The version number.
    pub open spec fn spec_version(self) -> u64 {
        match self {
            TableSnapshotStatisticsVersion::V0 => 0,
            TableSnapshotStatisticsVersion::V2 => 2,
            TableSnapshotStatisticsVersion::V3 => 3,
        }
    }

    /// The end of the object name of snapshot statistics in this version.
    pub open spec fn spec_suffix(self) -> Seq<char> {
        match self {
            TableSnapshotStatisticsVersion::V0 => "_ts_v0.json"@,
            TableSnapshotStatisticsVersion::V2 => "_ts_v2.json"@,
            TableSnapshotStatisticsVersion::V3 => "_ts_v3.json"@,
        }
    }

    /// The version numbered `version`, if there is one.
    pub open spec fn spec_from_number(version: u64) -> Option<TableSnapshotStatisticsVersion> {
        if version == 0 {
            Some(TableSnapshotStatisticsVersion::V0)
        } else if version == 2 {
            Some(TableSnapshotStatisticsVersion::V2)
        } else if version == 3 {
            Some(TableSnapshotStatisticsVersion::V3)
        } else {
            None
        }
    }

    /// The version number.
    pub fn version(&self) -> (v: u64)
        ensures
            v == self.spec_version(),
    {
        match self {
            TableSnapshotStatisticsVersion::V0 => 0,
            TableSnapshotStatisticsVersion::V2 => 2,
            TableSnapshotStatisticsVersion::V3 => 3,
        }
    }

    /// The version numbered `version`; an error for any other number.
    pub fn try_from_number(version: u64) -> (r: Result<TableSnapshotStatisticsVersion, LocationError>)
        ensures
            match TableSnapshotStatisticsVersion::spec_from_number(version) {
                Some(v) => r == Ok::<TableSnapshotStatisticsVersion, LocationError>(v),
                None => r == Err::<TableSnapshotStatisticsVersion, LocationError>(
                    LocationError::UnknownStatisticsVersion(version),
                ),
            },
    {
        if version == 0 {
            Ok(TableSnapshotStatisticsVersion::V0)
        } else if version == 2 {
            Ok(TableSnapshotStatisticsVersion::V2)
        } else if version == 3 {
            Ok(TableSnapshotStatisticsVersion::V3)
        } else {
            Err(LocationError::UnknownStatisticsVersion(version))
        }
    }

    /// The end of the object name of snapshot statistics in this version.
    pub fn suffix(&self) -> (s: String)
        ensures
            s@ == self.spec_suffix(),
    {
        match self {
            TableSnapshotStatisticsVersion::V0 => String::from_str("_ts_v0.json"),
            TableSnapshotStatisticsVersion::V2 => String::from_str("_ts_v2.json"),
            TableSnapshotStatisticsVersion::V3 => String::from_str("_ts_v3.json"),
        }
    }

    /// The location of the statistics of snapshot `id` of the table stored under `prefix`.
    pub open spec fn spec_create(self, id: u128, prefix: Seq<char>) -> Seq<char> {
        prefix + "/"@ + FUSE_TBL_SNAPSHOT_STATISTICS_PREFIX@ + "/"@ + uuid_simple(id)
            + self.spec_suffix()
    }

    /// The location of the statistics of snapshot `id` of the table stored under `prefix`.
    pub fn create(&self, id: u128, prefix: &str) -> (s: String)
        ensures
            s@ == self.spec_create(id, prefix@),
    {
        let mut s = String::from_str(prefix);
        s.append("/");
        s.append(FUSE_TBL_SNAPSHOT_STATISTICS_PREFIX);
        s.append("/");
        let simple = uuid_simple_string(id);
        s.append(simple.as_str());
        let suffix = self.suffix();
        s.append(suffix.as_str());
        s
    }
}

/// `key` without its leading `VACUUM2_OBJECT_KEY_PREFIX`, if it has one.
pub open spec fn spec_trim_vacuum2_object_prefix(key: Seq<char>) -> Seq<char> {
    let p = VACUUM2_OBJECT_KEY_PREFIX@;
    if p.len() <= key.len() && key.take(p.len() as int) == p {
        key.skip(p.len() as int)
    } else {
        key
    }
}

/// Strips the leading `VACUUM2_OBJECT_KEY_PREFIX` from an object name, if it has one.
pub fn trim_vacuum2_object_prefix(key: &str) -> (r: String)
    ensures
        r@ == spec_trim_vacuum2_object_prefix(key@),
{
    let chars = chars_of(key);
    let trimmed = trim_object_key(chars.as_slice());
    string_of(trimmed.as_slice())
}

/// `trim_vacuum2_object_prefix` on characters.
pub fn trim_object_key(key: &[char]) -> (r: Vec<char>)
    ensures
        r@ == spec_trim_vacuum2_object_prefix(key@),
{
    let p = chars_of(VACUUM2_OBJECT_KEY_PREFIX);
    let mut out: Vec<char> = Vec::new();
    if occurs_at(key, 0, p.as_slice()) {
        let mut i: usize = p.len();
        assert(key@.skip(0) =~= key@);
        while i < key.len()
            invariant
                p@.len() <= i <= key@.len(),
                out@ == key@.subrange(p@.len() as int, i as int),
            decreases key.len() - i,
        {
            out.push(key[i]);
            assert(key@.subrange(p@.len() as int, i + 1) =~= out@);
            i = i + 1;
        }
        assert(out@ =~= key@.skip(p@.len() as int));
    } else {
        append_chars(&mut out, key);
        assert(key@.skip(0) =~= key@);
    }
    out
}

} // verus!
