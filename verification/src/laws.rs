//! Properties that hold across the functions of the library.
use vstd::prelude::*;
use vstd::string::*;
use crate::constants::{
    DATA_BLOCK_VERSION, FUSE_TBL_AGG_INDEX_PREFIX, FUSE_TBL_BLOCK_PREFIX,
    FUSE_TBL_VIRTUAL_BLOCK_PREFIX,
    FUSE_TBL_INVERTED_INDEX_PREFIX, FUSE_TBL_SNAPSHOT_PREFIX, FUSE_TBL_SNAPSHOT_STATISTICS_PREFIX,
    INVERTED_INDEX_FILE_VERSION, VACUUM2_OBJECT_KEY_PREFIX,
};
use crate::ids::{is_lower_hex, lemma_uuid_simple_hex, uuid_simple, uuid_version};
use crate::locations::{
    block_name_of, first_chars, spec_agg_index_location, spec_inverted_index_location,
    spec_snapshot_version, spec_table_statistics_version, table_part_of,
    TableMetaLocationGenerator,
};
use crate::text::{
    decimal, ends_with, holds_pair, lemma_replace_absent, lemma_replace_block_dir,
    lemma_replace_concat, replace_all, lemma_ends_with_concat, lemma_join_split, lemma_no_sep_concat,
    lemma_not_ends_with, lemma_split_concat, lemma_split_no_sep, split_on,
};
use crate::versions::{vacuum_marker, SnapshotVersion, TableSnapshotStatisticsVersion};

verus! {

/// A version number that names a snapshot format names the format whose number it is, and
/// every snapshot format's number names it again.
pub proof fn law_snapshot_version_number_roundtrip(v: SnapshotVersion, n: u64)
    ensures
        SnapshotVersion::spec_from_number(v.spec_version()) == Some(v),
        SnapshotVersion::spec_from_number(n) matches Some(w) ==> w.spec_version() == n,
{
}

/// A version number that names a statistics format names the format whose number it is, and
/// every statistics format's number names it again.
pub proof fn law_statistics_version_number_roundtrip(v: TableSnapshotStatisticsVersion, n: u64)
    ensures
        TableSnapshotStatisticsVersion::spec_from_number(v.spec_version()) == Some(v),
        TableSnapshotStatisticsVersion::spec_from_number(n) matches Some(w) ==> w.spec_version()
            == n,
{
}

proof fn reveal_snapshot_suffixes()
    ensures
        SnapshotVersion::V1.spec_suffix() == seq!['_', 'v', '1', '.', 'j', 's', 'o', 'n'],
        SnapshotVersion::V2.spec_suffix() == seq!['_', 'v', '2', '.', 'j', 's', 'o', 'n'],
        SnapshotVersion::V3.spec_suffix() == seq![
            '_',
            'v',
            '3',
            '.',
            'b',
            'i',
            'n',
            'c',
            'o',
            'd',
            'e',
        ],
        SnapshotVersion::V4.spec_suffix() == seq!['_', 'v', '4', '.', 'm', 'p', 'k'],
{
    reveal_strlit("_v1.json");
    reveal_strlit("_v2.json");
    reveal_strlit("_v3.bincode");
    reveal_strlit("_v4.mpk");
}

proof fn reveal_statistics_suffixes()
    ensures
        TableSnapshotStatisticsVersion::V0.spec_suffix() == seq![
            '_',
            't',
            's',
            '_',
            'v',
            '0',
            '.',
            'j',
            's',
            'o',
            'n',
        ],
        TableSnapshotStatisticsVersion::V2.spec_suffix() == seq![
            '_',
            't',
            's',
            '_',
            'v',
            '2',
            '.',
            'j',
            's',
            'o',
            'n',
        ],
        TableSnapshotStatisticsVersion::V3.spec_suffix() == seq![
            '_',
            't',
            's',
            '_',
            'v',
            '3',
            '.',
            'j',
            's',
            'o',
            'n',
        ],
{
    reveal_strlit("_ts_v0.json");
    reveal_strlit("_ts_v2.json");
    reveal_strlit("_ts_v3.json");
}

/// A text that ends with the hex digits of a UUID ends with none of the snapshot suffixes,
/// all of which start with '_'.
proof fn lemma_hex_end_has_no_suffix(head: Seq<char>, id: u128, suffix: Seq<char>)
    requires
        0 < suffix.len() <= 32,
        suffix[0] == '_',
    ensures
        !ends_with(head + uuid_simple(id), suffix),
{
    let s = head + uuid_simple(id);
    lemma_uuid_simple_hex(id);
    let k = s.len() - suffix.len();
    assert(s[k] == uuid_simple(id)[k - head.len()]);
    assert(is_lower_hex(uuid_simple(id)[k - head.len()]));
    lemma_not_ends_with(s, suffix, 0);
}

/// Reading the format version back from a snapshot location gives the version that the
/// location was made for, whatever the table prefix and the snapshot id.
pub proof fn law_snapshot_location_version_roundtrip(
    v: SnapshotVersion,
    id: u128,
    prefix: Seq<char>,
)
    ensures
        spec_snapshot_version(v.spec_create(id, prefix)) == v.spec_version(),
{
    reveal_snapshot_suffixes();
    let head = prefix + "/"@ + FUSE_TBL_SNAPSHOT_PREFIX@ + "/"@ + vacuum_marker(id);
    let body = head + uuid_simple(id);
    let s = v.spec_create(id, prefix);
    assert(s == body + v.spec_suffix());
    let s4 = SnapshotVersion::V4.spec_suffix();
    let s3 = SnapshotVersion::V3.spec_suffix();
    let s2 = SnapshotVersion::V2.spec_suffix();
    let s1 = SnapshotVersion::V1.spec_suffix();
    lemma_uuid_simple_hex(id);
    match v {
        SnapshotVersion::V0 => {
            assert(s =~= body);
            lemma_hex_end_has_no_suffix(head, id, s4);
            lemma_hex_end_has_no_suffix(head, id, s3);
            lemma_hex_end_has_no_suffix(head, id, s2);
            lemma_hex_end_has_no_suffix(head, id, s1);
        },
        SnapshotVersion::V4 => {
            lemma_ends_with_concat(body, s4);
        },
        SnapshotVersion::V3 => {
            assert(s[s.len() - 7] == 'b');
            lemma_not_ends_with(s, s4, 0);
            lemma_ends_with_concat(body, s3);
        },
        SnapshotVersion::V2 => {
            assert(s[s.len() - 7] == 'v');
            lemma_not_ends_with(s, s4, 0);
            assert(s[s.len() - 8] == '_');
            lemma_not_ends_with(s, s3, 3);
            lemma_ends_with_concat(body, s2);
        },
        SnapshotVersion::V1 => {
            assert(s[s.len() - 7] == 'v');
            lemma_not_ends_with(s, s4, 0);
            assert(s[s.len() - 8] == '_');
            lemma_not_ends_with(s, s3, 3);
            assert(s[s.len() - 6] == '1');
            lemma_not_ends_with(s, s2, 2);
            lemma_ends_with_concat(body, s1);
        },
    }
}

/// Reading the format version back from a snapshot-statistics location gives the version
/// that the location was made for, whatever the table prefix and the snapshot id.
pub proof fn law_statistics_location_version_roundtrip(
    v: TableSnapshotStatisticsVersion,
    id: u128,
    prefix: Seq<char>,
)
    ensures
        spec_table_statistics_version(v.spec_create(id, prefix)) == v.spec_version(),
{
    reveal_statistics_suffixes();
    let body = prefix + "/"@ + FUSE_TBL_SNAPSHOT_STATISTICS_PREFIX@ + "/"@ + uuid_simple(id);
    let s = v.spec_create(id, prefix);
    assert(s == body + v.spec_suffix());
    let s0 = TableSnapshotStatisticsVersion::V0.spec_suffix();
    let s2 = TableSnapshotStatisticsVersion::V2.spec_suffix();
    match v {
        TableSnapshotStatisticsVersion::V0 => {
            lemma_ends_with_concat(body, s0);
        },
        TableSnapshotStatisticsVersion::V2 => {
            assert(s[s.len() - 6] == '2');
            lemma_not_ends_with(s, s0, 5);
            lemma_ends_with_concat(body, s2);
        },
        TableSnapshotStatisticsVersion::V3 => {
            assert(s[s.len() - 6] == '3');
            lemma_not_ends_with(s, s0, 5);
            lemma_not_ends_with(s, s2, 5);
        },
    }
}


/// The object name of a data block, after the block directory.
pub open spec fn block_file_name(part_prefix: Seq<char>, part_uuid: u128) -> Seq<char> {
    part_prefix + uuid_simple(part_uuid) + "_v"@ + decimal(DATA_BLOCK_VERSION as nat)
        + ".parquet"@
}

/// The location of a data block splits, at '/', into the table prefix, the block directory
/// and the block's object name, which is the marker followed by `block_file_name`.
proof fn lemma_block_location_parts(g: TableMetaLocationGenerator, part_uuid: u128)
    requires
        !g.spec_part_prefix().contains('/'),
    ensures
        table_part_of(g.spec_block_location(part_uuid)) == g.spec_prefix(),
        block_name_of(g.spec_block_location(part_uuid)) == block_file_name(
            g.spec_part_prefix(),
            part_uuid,
        ),
{
    reveal_strlit("/");
    reveal_strlit("_b");
    reveal_strlit("g");
    reveal_strlit("_v");
    reveal_strlit(".parquet");
    let p = g.spec_prefix();
    let q = g.spec_part_prefix();
    let b = FUSE_TBL_BLOCK_PREFIX@;
    let file = block_file_name(q, part_uuid);
    let name = "g"@ + file;
    let loc = g.spec_block_location(part_uuid);
    assert(decimal(DATA_BLOCK_VERSION as nat) == seq!['2']);
    assert(loc =~= p + seq!['/'] + (b + seq!['/'] + name));
    lemma_uuid_simple_hex(part_uuid);
    assert(!uuid_simple(part_uuid).contains('/')) by {
        if uuid_simple(part_uuid).contains('/') {
            let k = choose|k: int| 0 <= k < 32 && uuid_simple(part_uuid)[k] == '/';
            assert(is_lower_hex(uuid_simple(part_uuid)[k]));
        }
    }
    assert(!("g"@).contains('/')) by {
        if ("g"@).contains('/') {
            let k = choose|k: int| 0 <= k < 1 && ("g"@)[k] == '/';
        }
    }
    assert(!("_v"@ + decimal(DATA_BLOCK_VERSION as nat) + ".parquet"@).contains('/')) by {
        let t = "_v"@ + decimal(DATA_BLOCK_VERSION as nat) + ".parquet"@;
        if t.contains('/') {
            let k = choose|k: int| 0 <= k < t.len() && t[k] == '/';
            assert(t =~= seq!['_', 'v', '2', '.', 'p', 'a', 'r', 'q', 'u', 'e', 't']);
        }
    }
    assert(!b.contains('/')) by {
        if b.contains('/') {
            let k = choose|k: int| 0 <= k < b.len() && b[k] == '/';
        }
    }
    lemma_no_sep_concat(q, uuid_simple(part_uuid), '/');
    assert(file =~= (q + uuid_simple(part_uuid)) + ("_v"@ + decimal(DATA_BLOCK_VERSION as nat)
        + ".parquet"@));
    lemma_no_sep_concat(
        q + uuid_simple(part_uuid),
        "_v"@ + decimal(DATA_BLOCK_VERSION as nat) + ".parquet"@,
        '/',
    );
    lemma_no_sep_concat("g"@, file, '/');
    lemma_split_concat(p, b + seq!['/'] + name, '/');
    lemma_split_concat(b, name, '/');
    lemma_split_no_sep(b, '/');
    lemma_split_no_sep(name, '/');
    let pp = split_on(p, '/');
    let pieces = split_on(loc, '/');
    assert(pieces =~= pp + seq![b] + seq![name]);
    assert(pieces.take(pieces.len() - 2) =~= pp);
    lemma_join_split(p, '/');
    assert("/"@ =~= seq!['/']);
    assert(table_part_of(loc) == p);
    assert(pieces[pieces.len() - 1] == name);
    assert(VACUUM2_OBJECT_KEY_PREFIX@ == seq!['g']);
    assert(name.take(1) =~= seq!['g']);
    assert(name.skip(1) =~= file);
}

/// The aggregating index of a data block made by the generator lies under the same table
/// prefix and is named by the block's object name without its leading marker, provided
/// the block-name prefix holds no '/'.
pub proof fn law_agg_index_of_block_location(
    g: TableMetaLocationGenerator,
    part_uuid: u128,
    index_id: u64,
)
    requires
        !g.spec_part_prefix().contains('/'),
    ensures
        spec_agg_index_location(g.spec_block_location(part_uuid), index_id) == g.spec_prefix()
            + "/"@ + FUSE_TBL_AGG_INDEX_PREFIX@ + "/"@ + decimal(index_id as nat) + "/"@
            + block_file_name(g.spec_part_prefix(), part_uuid),
{
    lemma_block_location_parts(g, part_uuid);
}

/// The inverted index of a data block made by the generator lies under the same table
/// prefix and is named by the first 32 characters of the block's object name without its
/// leading marker, provided the block-name prefix holds no '/'.
pub proof fn law_inverted_index_of_block_location(
    g: TableMetaLocationGenerator,
    part_uuid: u128,
    index_name: Seq<char>,
    index_version: Seq<char>,
)
    requires
        !g.spec_part_prefix().contains('/'),
    ensures
        spec_inverted_index_location(g.spec_block_location(part_uuid), index_name, index_version)
            == g.spec_prefix() + "/"@ + FUSE_TBL_INVERTED_INDEX_PREFIX@ + "/"@ + index_name + "/"@
            + first_chars(index_version, 7) + "/"@ + first_chars(
            block_file_name(g.spec_part_prefix(), part_uuid),
            32,
        ) + "_v"@ + decimal(INVERTED_INDEX_FILE_VERSION as nat) + ".index"@,
{
    lemma_block_location_parts(g, part_uuid);
}

/// With no block-name prefix, the inverted index of a data block made by the generator is
/// named by the block's UUID.
pub proof fn law_inverted_index_names_block_uuid(part_uuid: u128)
    ensures
        first_chars(block_file_name(Seq::<char>::empty(), part_uuid), 32) == uuid_simple(
            part_uuid,
        ),
{
    let f = block_file_name(Seq::<char>::empty(), part_uuid);
    assert(f.take(32) =~= uuid_simple(part_uuid));
}


/// The virtual-column block of a data block made by the generator sits beside it: the same
/// location with the block directory replaced by the virtual-block directory, provided the
/// table prefix and the block-name prefix hold no "_b" and the block-name prefix does not
/// end with '_' where the UUID's hex digits start with 'b'.
pub proof fn law_virtual_block_of_block_location(g: TableMetaLocationGenerator, part_uuid: u128)
    requires
        !holds_pair(g.spec_prefix(), '_', 'b'),
        !holds_pair(g.spec_part_prefix(), '_', 'b'),
        !(g.spec_part_prefix().len() > 0 && g.spec_part_prefix().last() == '_' && uuid_simple(
            part_uuid,
        )[0] == 'b'),
    ensures
        replace_all(
            g.spec_block_location(part_uuid),
            FUSE_TBL_BLOCK_PREFIX@,
            FUSE_TBL_VIRTUAL_BLOCK_PREFIX@,
        ) == g.spec_prefix() + "/"@ + FUSE_TBL_VIRTUAL_BLOCK_PREFIX@ + "/"@ + "g"@
            + block_file_name(g.spec_part_prefix(), part_uuid),
{
    reveal_strlit("/");
    reveal_strlit("_b");
    reveal_strlit("_vb");
    reveal_strlit("g");
    reveal_strlit("_v");
    reveal_strlit(".parquet");
    let to = FUSE_TBL_VIRTUAL_BLOCK_PREFIX@;
    let from = seq!['_', 'b'];
    assert(FUSE_TBL_BLOCK_PREFIX@ =~= from);
    let p = g.spec_prefix();
    let q = g.spec_part_prefix();
    let hex = uuid_simple(part_uuid);
    assert(decimal(DATA_BLOCK_VERSION as nat) == seq!['2']);
    let tail = seq!['_', 'v', '2', '.', 'p', 'a', 'r', 'q', 'u', 'e', 't'];
    assert("_v"@ + decimal(DATA_BLOCK_VERSION as nat) + ".parquet"@ =~= tail);
    let slash = seq!['/'];
    let gee = seq!['g'];
    let r5 = hex + tail;
    let r4 = q + r5;
    let r3 = gee + r4;
    let r2 = slash + r3;
    let r1 = from + r2;
    let r0 = slash + r1;
    assert(g.spec_block_location(part_uuid) =~= p + r0);
    assert(block_file_name(q, part_uuid) =~= r4);
    // the tail and the hex digits hold no "_b"
    assert(!holds_pair(tail, '_', 'b')) by {
        if holds_pair(tail, '_', 'b') {
            let k = choose|k: int| 0 <= k && k + 1 < tail.len() && #[trigger] tail[k] == '_'
                && tail[k + 1] == 'b';
        }
    }
    lemma_uuid_simple_hex(part_uuid);
    assert(!holds_pair(hex, '_', 'b')) by {
        if holds_pair(hex, '_', 'b') {
            let k = choose|k: int| 0 <= k && k + 1 < hex.len() && #[trigger] hex[k] == '_'
                && hex[k + 1] == 'b';
            assert(is_lower_hex(hex[k]));
        }
    }
    assert(is_lower_hex(hex[31]));
    lemma_replace_absent(tail, '_', 'b', to);
    lemma_replace_absent(hex, '_', 'b', to);
    lemma_replace_concat(hex, tail, '_', 'b', to);
    lemma_replace_absent(q, '_', 'b', to);
    assert(r5[0] == hex[0]);
    lemma_replace_concat(q, r5, '_', 'b', to);
    lemma_replace_absent(gee, '_', 'b', to);
    lemma_replace_concat(gee, r4, '_', 'b', to);
    lemma_replace_absent(slash, '_', 'b', to);
    lemma_replace_concat(slash, r3, '_', 'b', to);
    lemma_replace_concat(from, r2, '_', 'b', to);
    assert(replace_all(from, from, to) =~= to) by {
        assert(from.take(2) =~= from);
        assert(from.skip(2) =~= Seq::<char>::empty());
        assert(replace_all(Seq::<char>::empty(), from, to) == Seq::<char>::empty());
        assert(to + Seq::<char>::empty() =~= to);
    }
    lemma_replace_concat(slash, r1, '_', 'b', to);
    lemma_replace_absent(p, '_', 'b', to);
    lemma_replace_concat(p, r0, '_', 'b', to);
    assert(replace_all(p + r0, from, to) =~= p + slash + to + slash + gee + r4);
}

/// Renaming the block directory again changes nothing: the virtual-column location of a
/// virtual-column location is itself, as no "_b" is left to rename.
pub proof fn law_virtual_block_location_idempotent(location: Seq<char>)
    ensures
        replace_all(
            replace_all(location, FUSE_TBL_BLOCK_PREFIX@, FUSE_TBL_VIRTUAL_BLOCK_PREFIX@),
            FUSE_TBL_BLOCK_PREFIX@,
            FUSE_TBL_VIRTUAL_BLOCK_PREFIX@,
        ) == replace_all(location, FUSE_TBL_BLOCK_PREFIX@, FUSE_TBL_VIRTUAL_BLOCK_PREFIX@),
        !holds_pair(
            replace_all(location, FUSE_TBL_BLOCK_PREFIX@, FUSE_TBL_VIRTUAL_BLOCK_PREFIX@),
            '_',
            'b',
        ),
{
    reveal_strlit("_b");
    reveal_strlit("_vb");
    assert(FUSE_TBL_BLOCK_PREFIX@ =~= seq!['_', 'b']);
    assert(FUSE_TBL_VIRTUAL_BLOCK_PREFIX@ =~= seq!['_', 'v', 'b']);
    lemma_replace_block_dir(location);
    lemma_replace_absent(
        replace_all(location, seq!['_', 'b'], seq!['_', 'v', 'b']),
        '_',
        'b',
        seq!['_', 'v', 'b'],
    );
}

/// The end of the object name of a snapshot in each format version, spelt out.
pub open spec fn snapshot_suffix_chars(v: SnapshotVersion) -> Seq<char> {
    match v {
        SnapshotVersion::V0 => Seq::<char>::empty(),
        SnapshotVersion::V1 => seq!['_', 'v', '1', '.', 'j', 's', 'o', 'n'],
        SnapshotVersion::V2 => seq!['_', 'v', '2', '.', 'j', 's', 'o', 'n'],
        SnapshotVersion::V3 => seq!['_', 'v', '3', '.', 'b', 'i', 'n', 'c', 'o', 'd', 'e'],
        SnapshotVersion::V4 => seq!['_', 'v', '4', '.', 'm', 'p', 'k'],
    }
}

/// A snapshot location is the table prefix, "/_ss/", the marker 'g' if and only if the id
/// is a time-ordered (version 7) UUID, the id's 32 hex digits and the version's suffix. In
/// particular the character after "/_ss/" is 'g' exactly for version-7 ids: for any other
/// id (a random version-4 one, say) it is the first hex digit of the id.
pub proof fn law_snapshot_location_layout(v: SnapshotVersion, id: u128, prefix: Seq<char>)
    ensures
        uuid_version(id) != 7 ==> v.spec_create(id, prefix) == prefix + seq![
            '/',
            '_',
            's',
            's',
            '/',
        ] + uuid_simple(id) + snapshot_suffix_chars(v),
        uuid_version(id) == 7 ==> v.spec_create(id, prefix) == prefix + seq![
            '/',
            '_',
            's',
            's',
            '/',
            'g',
        ] + uuid_simple(id) + snapshot_suffix_chars(v),
        (v.spec_create(id, prefix)[prefix.len() + 5int] == 'g') <==> uuid_version(id) == 7,
{
    reveal_strlit("/");
    reveal_strlit("_ss");
    reveal_strlit("g");
    reveal_snapshot_suffixes();
    lemma_uuid_simple_hex(id);
    assert(v.spec_suffix() == snapshot_suffix_chars(v));
    let l = v.spec_create(id, prefix);
    if uuid_version(id) == 7 {
        assert(vacuum_marker(id) =~= seq!['g']);
        assert(l =~= prefix + seq!['/', '_', 's', 's', '/', 'g'] + uuid_simple(id)
            + snapshot_suffix_chars(v));
        assert(l[prefix.len() + 5int] == 'g');
    } else {
        assert(vacuum_marker(id) =~= Seq::<char>::empty());
        assert(l =~= prefix + seq!['/', '_', 's', 's', '/'] + uuid_simple(id)
            + snapshot_suffix_chars(v));
        assert(l[prefix.len() + 5int] == uuid_simple(id)[0]);
        assert(is_lower_hex(uuid_simple(id)[0]));
    }
}

/// A snapshot-statistics location is the table prefix, "/_ts/", the id's 32 hex digits and
/// the version's suffix, with no marker whatever the id's version.
pub proof fn law_statistics_location_layout(
    v: TableSnapshotStatisticsVersion,
    id: u128,
    prefix: Seq<char>,
)
    ensures
        v.spec_create(id, prefix) == prefix + seq!['/', '_', 't', 's', '/'] + uuid_simple(id)
            + seq!['_', 't', 's', '_', 'v'] + seq![
            match v {
                TableSnapshotStatisticsVersion::V0 => '0',
                TableSnapshotStatisticsVersion::V2 => '2',
                TableSnapshotStatisticsVersion::V3 => '3',
            },
        ] + seq!['.', 'j', 's', 'o', 'n'],
{
    reveal_strlit("/");
    reveal_strlit("_ts");
    reveal_statistics_suffixes();
    let d = match v {
        TableSnapshotStatisticsVersion::V0 => '0',
        TableSnapshotStatisticsVersion::V2 => '2',
        TableSnapshotStatisticsVersion::V3 => '3',
    };
    assert(v.spec_suffix() =~= seq!['_', 't', 's', '_', 'v'] + seq![d] + seq![
        '.',
        'j',
        's',
        'o',
        'n',
    ]);
    assert(v.spec_create(id, prefix) =~= prefix + seq!['/', '_', 't', 's', '/'] + uuid_simple(id)
        + seq!['_', 't', 's', '_', 'v'] + seq![d] + seq!['.', 'j', 's', 'o', 'n']);
}

/// The bloom-filter index location of a block is the table prefix, "/_i_b_v2/", the block
/// id's 32 hex digits and "_v4.parquet": it depends on the table prefix and the id alone,
/// not on the block-name prefix, so two generators with the same table prefix agree.
pub proof fn law_bloom_index_location_layout(
    g: TableMetaLocationGenerator,
    other: TableMetaLocationGenerator,
    block_id: u128,
)
    requires
        other.spec_prefix() == g.spec_prefix(),
    ensures
        g.spec_bloom_index_location(block_id) == g.spec_prefix() + seq![
            '/',
            '_',
            'i',
            '_',
            'b',
            '_',
            'v',
            '2',
            '/',
        ] + uuid_simple(block_id) + seq!['_', 'v', '4', '.', 'p', 'a', 'r', 'q', 'u', 'e', 't'],
        other.spec_bloom_index_location(block_id) == g.spec_bloom_index_location(block_id),
{
    reveal_strlit("/");
    reveal_strlit("_i_b_v2");
    reveal_strlit("_v");
    reveal_strlit(".parquet");
    assert(decimal(4) == seq!['4']);
    assert(g.spec_bloom_index_location(block_id) =~= g.spec_prefix() + seq![
        '/',
        '_',
        'i',
        '_',
        'b',
        '_',
        'v',
        '2',
        '/',
    ] + uuid_simple(block_id) + seq!['_', 'v', '4', '.', 'p', 'a', 'r', 'q', 'u', 'e', 't']);
}

/// A segment location is the table prefix, "/_sg/", the segment id's 32 hex digits and
/// "_v4.mpk": its object name is 39 characters long, hex digits before "_v4.mpk", and it does
/// not depend on the block-name prefix, so two generators with the same table prefix agree.
pub proof fn law_segment_location_layout(
    g: TableMetaLocationGenerator,
    other: TableMetaLocationGenerator,
    segment_id: u128,
)
    requires
        other.spec_prefix() == g.spec_prefix(),
    ensures
        g.spec_segment_location(segment_id) == g.spec_prefix() + seq!['/', '_', 's', 'g', '/']
            + uuid_simple(segment_id) + seq!['_', 'v', '4', '.', 'm', 'p', 'k'],
        g.spec_segment_location(segment_id).len() == g.spec_prefix().len() + 5 + 39,
        forall|i: int|
            0 <= i < 32 ==> is_lower_hex(
                #[trigger] g.spec_segment_location(segment_id)[g.spec_prefix().len() + 5 + i],
            ),
        other.spec_segment_location(segment_id) == g.spec_segment_location(segment_id),
{
    reveal_strlit("/");
    reveal_strlit("_sg");
    reveal_strlit("_v");
    reveal_strlit(".mpk");
    assert(decimal(4) == seq!['4']);
    lemma_uuid_simple_hex(segment_id);
    let l = g.spec_segment_location(segment_id);
    let head = g.spec_prefix() + seq!['/', '_', 's', 'g', '/'];
    assert(l =~= head + uuid_simple(segment_id) + seq!['_', 'v', '4', '.', 'm', 'p', 'k']);
    assert forall|i: int| 0 <= i < 32 implies is_lower_hex(
        #[trigger] l[g.spec_prefix().len() + 5 + i],
    ) by {
        assert(l[g.spec_prefix().len() + 5 + i] == uuid_simple(segment_id)[i]);
    }
}

} // verus!
