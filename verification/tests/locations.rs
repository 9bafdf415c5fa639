use fuse_locations::locations::TableMetaLocationGenerator;
use fuse_locations::versions::{
    trim_vacuum2_object_prefix, LocationError, SnapshotVersion, TableSnapshotStatisticsVersion,
};

const ID: u128 = 0x0123456789abcdef0123456789abcdef;
const ID_HEX: &str = "0123456789abcdef0123456789abcdef";
// A time-ordered (version 7) UUID.
const ID_V7: u128 = 0x018f3c1a2b3c7d4e8f90a1b2c3d4e5f6;
const ID_V7_HEX: &str = "018f3c1a2b3c7d4e8f90a1b2c3d4e5f6";

fn generator() -> TableMetaLocationGenerator {
    TableMetaLocationGenerator::with_prefix("1/2".to_string())
}

fn version_field(id: u128) -> u128 {
    (id >> 76) & 0xf
}

#[test]
fn builder_sets_prefixes() {
    let g = generator();
    assert_eq!(g.prefix(), "1/2");
    assert_eq!(g.part_prefix(), "");
    let g = g.with_part_prefix("p_".to_string());
    assert_eq!(g.prefix(), "1/2");
    assert_eq!(g.part_prefix(), "p_");
}

#[test]
fn block_location_layout() {
    let (loc, ver) = generator().block_location_from_uuid(ID);
    assert_eq!(loc, format!("1/2/_b/g{}_v2.parquet", ID_HEX));
    assert_eq!(ver, 2);
    let g = generator().with_part_prefix("p_".to_string());
    let (loc, _) = g.block_location_from_uuid(ID);
    assert_eq!(loc, format!("1/2/_b/gp_{}_v2.parquet", ID_HEX));
}

#[test]
fn gen_block_location_uses_a_random_uuid() {
    let g = generator();
    let ((loc, ver), id) = g.gen_block_location();
    assert_eq!(version_field(id), 4);
    assert_eq!(ver, 2);
    assert_eq!(loc, g.block_location_from_uuid(id).0);
    let ((_, _), other) = g.gen_block_location();
    assert_ne!(id, other);
}

#[test]
fn bloom_index_location_layout() {
    let (loc, ver) = generator().block_bloom_index_location(ID);
    assert_eq!(loc, format!("1/2/_i_b_v2/{}_v4.parquet", ID_HEX));
    assert_eq!(ver, 4);
}

#[test]
fn segment_location_layout() {
    let g = generator();
    assert_eq!(g.segment_info_location_from_uuid(ID), format!("1/2/_sg/{}_v4.mpk", ID_HEX));
    let loc = g.gen_segment_info_location();
    assert!(loc.starts_with("1/2/_sg/"));
    assert!(loc.ends_with("_v4.mpk"));
    assert_eq!(loc.len(), "1/2/_sg/".len() + 32 + "_v4.mpk".len());
    let hex = &loc["1/2/_sg/".len().."1/2/_sg/".len() + 32];
    assert_eq!(&hex[12..13], "4");
}

#[test]
fn snapshot_locations_per_version() {
    let g = generator();
    assert_eq!(g.snapshot_location_from_uuid(ID, 0).unwrap(), format!("1/2/_ss/{}", ID_HEX));
    assert_eq!(
        g.snapshot_location_from_uuid(ID, 1).unwrap(),
        format!("1/2/_ss/{}_v1.json", ID_HEX)
    );
    assert_eq!(
        g.snapshot_location_from_uuid(ID, 2).unwrap(),
        format!("1/2/_ss/{}_v2.json", ID_HEX)
    );
    assert_eq!(
        g.snapshot_location_from_uuid(ID, 3).unwrap(),
        format!("1/2/_ss/{}_v3.bincode", ID_HEX)
    );
    assert_eq!(
        g.snapshot_location_from_uuid(ID, 4).unwrap(),
        format!("1/2/_ss/{}_v4.mpk", ID_HEX)
    );
}

#[test]
fn snapshot_location_marks_time_ordered_ids() {
    let g = generator();
    assert_eq!(version_field(ID_V7), 7);
    assert_eq!(
        g.snapshot_location_from_uuid(ID_V7, 4).unwrap(),
        format!("1/2/_ss/g{}_v4.mpk", ID_V7_HEX)
    );
}

#[test]
fn snapshot_location_rejects_unknown_version() {
    let g = generator();
    assert_eq!(g.snapshot_location_from_uuid(ID, 5), Err(LocationError::UnknownSnapshotVersion(5)));
    assert_eq!(
        g.snapshot_location_from_uuid(ID, u64::MAX),
        Err(LocationError::UnknownSnapshotVersion(u64::MAX))
    );
}

#[test]
fn snapshot_version_from_suffix() {
    assert_eq!(TableMetaLocationGenerator::snapshot_version("a/_ss/x_v4.mpk"), 4);
    assert_eq!(TableMetaLocationGenerator::snapshot_version("a/_ss/x_v3.bincode"), 3);
    assert_eq!(TableMetaLocationGenerator::snapshot_version("a/_ss/x_v2.json"), 2);
    assert_eq!(TableMetaLocationGenerator::snapshot_version("a/_ss/x_v1.json"), 1);
    assert_eq!(TableMetaLocationGenerator::snapshot_version("a/_ss/x"), 0);
    assert_eq!(TableMetaLocationGenerator::snapshot_version(""), 0);
    assert_eq!(TableMetaLocationGenerator::snapshot_version("_v5.mpk"), 0);
}

#[test]
fn snapshot_location_version_roundtrip() {
    let g = generator();
    for id in [ID, ID_V7] {
        for v in 0..5u64 {
            let loc = g.snapshot_location_from_uuid(id, v).unwrap();
            assert_eq!(TableMetaLocationGenerator::snapshot_version(&loc), v);
        }
    }
}

#[test]
fn statistics_locations_per_version() {
    let g = generator();
    assert_eq!(
        g.snapshot_statistics_location_from_uuid(ID, 0).unwrap(),
        format!("1/2/_ts/{}_ts_v0.json", ID_HEX)
    );
    assert_eq!(
        g.snapshot_statistics_location_from_uuid(ID, 2).unwrap(),
        format!("1/2/_ts/{}_ts_v2.json", ID_HEX)
    );
    assert_eq!(
        g.snapshot_statistics_location_from_uuid(ID, 3).unwrap(),
        format!("1/2/_ts/{}_ts_v3.json", ID_HEX)
    );
    assert_eq!(
        g.snapshot_statistics_location_from_uuid(ID, 1),
        Err(LocationError::UnknownStatisticsVersion(1))
    );
    assert_eq!(
        g.snapshot_statistics_location_from_uuid(ID, 4),
        Err(LocationError::UnknownStatisticsVersion(4))
    );
}

#[test]
fn statistics_version_from_suffix() {
    assert_eq!(TableMetaLocationGenerator::table_statistics_version("a/_ts/x_ts_v0.json"), 0);
    assert_eq!(TableMetaLocationGenerator::table_statistics_version("a/_ts/x_ts_v2.json"), 2);
    assert_eq!(TableMetaLocationGenerator::table_statistics_version("a/_ts/x_ts_v3.json"), 3);
    assert_eq!(TableMetaLocationGenerator::table_statistics_version("anything"), 3);
}

#[test]
fn statistics_location_version_roundtrip() {
    let g = generator();
    for v in [0u64, 2, 3] {
        let loc = g.snapshot_statistics_location_from_uuid(ID, v).unwrap();
        assert_eq!(TableMetaLocationGenerator::table_statistics_version(&loc), v);
    }
}

#[test]
fn last_snapshot_hint_location() {
    assert_eq!(generator().gen_last_snapshot_hint_location(), "1/2/last_snapshot_location_hint");
}

#[test]
fn virtual_block_location_replaces_block_dir() {
    assert_eq!(
        TableMetaLocationGenerator::gen_virtual_block_location("1/2/_b/gabc_v2.parquet"),
        "1/2/_vb/gabc_v2.parquet"
    );
    assert_eq!(TableMetaLocationGenerator::gen_virtual_block_location("a_b_b"), "a_vb_vb");
    assert_eq!(TableMetaLocationGenerator::gen_virtual_block_location("__bb"), "__vbb");
    assert_eq!(TableMetaLocationGenerator::gen_virtual_block_location("none"), "none");
}

#[test]
fn agg_index_location_from_block_location() {
    let (loc, _) = generator().block_location_from_uuid(ID);
    assert_eq!(
        TableMetaLocationGenerator::gen_agg_index_location_from_block_location(&loc, 7),
        format!("1/2/_i_a/7/{}_v2.parquet", ID_HEX)
    );
    assert_eq!(
        TableMetaLocationGenerator::gen_agg_index_location_from_block_location("_b/x", 1234567),
        "/_i_a/1234567/x"
    );
    assert_eq!(
        TableMetaLocationGenerator::gen_agg_index_location_from_block_location("a/b/c/habc", 0),
        "a/b/_i_a/0/habc"
    );
}

#[test]
fn inverted_index_location_from_block_location() {
    let (loc, _) = generator().block_location_from_uuid(ID);
    assert_eq!(
        TableMetaLocationGenerator::gen_inverted_index_location_from_block_location(
            &loc,
            "idx",
            "abcdef0123"
        ),
        format!("1/2/_i_i/idx/abcdef0/{}_v1.index", ID_HEX)
    );
    assert_eq!(
        TableMetaLocationGenerator::gen_inverted_index_location_from_block_location(
            "p/_b/gshort",
            "i",
            "v1"
        ),
        "p/_i_i/i/v1/short_v1.index"
    );
}

#[test]
fn trim_object_prefix() {
    assert_eq!(trim_vacuum2_object_prefix("gabc"), "abc");
    assert_eq!(trim_vacuum2_object_prefix("abc"), "abc");
    assert_eq!(trim_vacuum2_object_prefix("g"), "");
    assert_eq!(trim_vacuum2_object_prefix(""), "");
}

#[test]
fn version_numbers() {
    assert_eq!(SnapshotVersion::try_from_number(3), Ok(SnapshotVersion::V3));
    assert_eq!(SnapshotVersion::V4.version(), 4);
    assert_eq!(SnapshotVersion::V3.suffix(), "_v3.bincode");
    assert_eq!(SnapshotVersion::V0.suffix(), "");
    assert_eq!(TableSnapshotStatisticsVersion::try_from_number(2), Ok(TableSnapshotStatisticsVersion::V2));
    assert_eq!(TableSnapshotStatisticsVersion::V3.version(), 3);
    assert_eq!(
        TableSnapshotStatisticsVersion::try_from_number(1),
        Err(LocationError::UnknownStatisticsVersion(1))
    );
    assert_eq!(
        SnapshotVersion::V1.create(ID, "pre"),
        format!("pre/_ss/{}_v1.json", ID_HEX)
    );
}

#[test]
fn virtual_block_sits_beside_generated_block() {
    let g = generator();
    let ((loc, _), id) = g.gen_block_location();
    let hex = format!("{:032x}", id);
    assert_eq!(
        TableMetaLocationGenerator::gen_virtual_block_location(&loc),
        format!("1/2/_vb/g{}_v2.parquet", hex)
    );
}

#[test]
fn virtual_block_of_part_prefix_ending_in_underscore() {
    // The block-name prefix "p_" followed by a UUID that starts with 'b' forms "_b", which
    // is replaced too.
    let g = generator().with_part_prefix("p_".to_string());
    let id: u128 = 0xb123456789abcdef0123456789abcdef;
    let (loc, _) = g.block_location_from_uuid(id);
    assert_eq!(
        TableMetaLocationGenerator::gen_virtual_block_location(&loc),
        "1/2/_vb/gp_vb123456789abcdef0123456789abcdef_v2.parquet"
    );
}

#[test]
fn virtual_block_location_is_idempotent() {
    for s in ["1/2/_b/gabc_v2.parquet", "a_b_b", "__bb", "_", "_b", "x__b_b_"] {
        let once = TableMetaLocationGenerator::gen_virtual_block_location(s);
        assert!(!once.contains("_b"));
        assert_eq!(TableMetaLocationGenerator::gen_virtual_block_location(&once), once);
    }
}

#[test]
fn virtual_block_with_underscore_part_prefix() {
    // A block-name prefix ending in '_' is fine when the UUID does not start with 'b'.
    let g = generator().with_part_prefix("p_".to_string());
    let (loc, _) = g.block_location_from_uuid(ID);
    assert_eq!(
        TableMetaLocationGenerator::gen_virtual_block_location(&loc),
        format!("1/2/_vb/gp_{}_v2.parquet", ID_HEX)
    );
}
