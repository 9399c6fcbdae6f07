use sqlite_parser::header::{
    parse_page_size, validate_header_string, DatabaseHeader, FormatVersion, PageSize,
    SchemaVersion, TextEncoding, VacuumSetting,
};
use sqlite_parser::{parse_header, ByteReader, Error, ShortRead};

const MAGIC: [u8; 16] = *b"SQLite format 3\0";

fn put_u32(buf: &mut [u8], at: usize, v: u32) {
    buf[at..at + 4].copy_from_slice(&v.to_be_bytes());
}

/// A valid header whose fields all hold distinct, known values.
fn reference_header() -> Vec<u8> {
    let mut buf = vec![0u8; 100];
    buf[..16].copy_from_slice(&MAGIC);
    buf[16] = 0x10;
    buf[17] = 0x00;
    buf[18] = 1;
    buf[19] = 2;
    buf[20] = 8;
    buf[21] = 64;
    buf[22] = 32;
    buf[23] = 32;
    put_u32(&mut buf, 24, 0x0102_0304);
    put_u32(&mut buf, 28, 16);
    put_u32(&mut buf, 32, 7);
    put_u32(&mut buf, 36, 3);
    put_u32(&mut buf, 40, 9);
    put_u32(&mut buf, 44, 4);
    put_u32(&mut buf, 48, 2000);
    put_u32(&mut buf, 52, 0);
    put_u32(&mut buf, 56, 1);
    put_u32(&mut buf, 60, (-2i32) as u32);
    put_u32(&mut buf, 64, 0);
    put_u32(&mut buf, 68, 0x0F);
    put_u32(&mut buf, 92, 42);
    put_u32(&mut buf, 96, 3_046_000);
    buf
}

/// The smallest valid header: magic, page size 4096, fractions, schema format 1.
fn minimal_header() -> Vec<u8> {
    let mut buf = vec![0u8; 100];
    buf[..16].copy_from_slice(&MAGIC);
    buf[16] = 0x10;
    buf[17] = 0x00;
    buf[21] = 64;
    buf[22] = 32;
    buf[23] = 32;
    put_u32(&mut buf, 44, 1);
    buf
}

fn decode(buf: &[u8]) -> (Result<DatabaseHeader, Error>, Vec<Error>) {
    let mut findings = Vec::new();
    let mut reader = ByteReader::new(buf);
    let r = parse_header(&mut reader, &mut findings);
    (r, findings)
}

#[test]
fn reference_header_decodes_every_field() {
    let buf = reference_header();
    let mut findings = Vec::new();
    let mut reader = ByteReader::new(&buf);
    let h = parse_header(&mut reader, &mut findings).unwrap();
    assert_eq!(reader.remaining(), 0);
    assert!(findings.is_empty());
    assert_eq!(h.page_size.get(), 4096);
    assert_eq!(h.write_version, FormatVersion::Legacy);
    assert_eq!(h.read_version, FormatVersion::WriteAheadLog);
    assert_eq!(h.reserved_bytes, 8);
    assert_eq!(h.change_counter, 16_909_060);
    assert_eq!(h.database_size.map(|n| n.get()), Some(16));
    let free = h.free_page_list_info.unwrap();
    assert_eq!(free.start_page.get(), 7);
    assert_eq!(free.length, 3);
    assert_eq!(h.schema_cookie, 9);
    assert!(matches!(h.schema_version, SchemaVersion::Four));
    assert_eq!(h.cache_size, 2000);
    assert!(h.vacuum_setting.is_none());
    assert_eq!(h.text_encoding, TextEncoding::Utf8);
    assert_eq!(h.user_version, -2);
    assert_eq!(h.application_id, 15);
    assert_eq!(h.version_valid_for, 42);
    assert_eq!(h.library_write_version, 3_046_000);
}

#[test]
fn header_reads_exactly_one_hundred_bytes() {
    let mut buf = reference_header();
    buf.extend_from_slice(&[1, 2, 3]);
    let mut findings = Vec::new();
    let mut reader = ByteReader::new(&buf);
    assert!(parse_header(&mut reader, &mut findings).is_ok());
    assert_eq!(reader.remaining(), 3);
}

#[test]
fn zero_fields_are_absent() {
    let (r, findings) = decode(&minimal_header());
    let h = r.unwrap();
    assert!(findings.is_empty());
    assert_eq!(h.page_size.get(), 4096);
    assert!(matches!(h.schema_version, SchemaVersion::One));
    assert!(h.database_size.is_none());
    assert!(h.free_page_list_info.is_none());
    assert!(h.vacuum_setting.is_none());
    assert_eq!(h.write_version, FormatVersion::Unknown(0));
    assert_eq!(h.text_encoding, TextEncoding::Unknown(0));
}

#[test]
fn vacuum_setting_follows_incremental_flag() {
    let mut buf = minimal_header();
    put_u32(&mut buf, 52, 5);
    let (r, _) = decode(&buf);
    match r.unwrap().vacuum_setting {
        Some(VacuumSetting::Full(n)) => assert_eq!(n.get(), 5),
        other => panic!("unexpected {:?}", other),
    }
    put_u32(&mut buf, 64, 1);
    let (r, _) = decode(&buf);
    match r.unwrap().vacuum_setting {
        Some(VacuumSetting::Incremental(n)) => assert_eq!(n.get(), 5),
        other => panic!("unexpected {:?}", other),
    }
}

#[test]
fn minimal_header_has_page_size_4096_and_no_findings() {
    let (r, findings) = decode(&minimal_header());
    let h = r.unwrap();
    assert_eq!(h.page_size.get(), 4096);
    assert!(matches!(h.schema_version, SchemaVersion::One));
    assert!(findings.is_empty());
}

#[test]
fn page_size_256_is_too_small() {
    let mut buf = minimal_header();
    buf[16] = 0x01;
    buf[17] = 0x00;
    let (r, findings) = decode(&buf);
    match r {
        Err(Error::InvalidPageSize(msg)) => assert_eq!(msg, "value must be >= 512, found: 256"),
        other => panic!("unexpected {:?}", other),
    }
    assert!(findings.is_empty());
}

#[test]
fn page_size_257_is_too_small() {
    let mut buf = minimal_header();
    buf[16] = 0x01;
    buf[17] = 0x01;
    let (r, _) = decode(&buf);
    assert!(matches!(r, Err(Error::InvalidPageSize(_))));
}

#[test]
fn fifty_bytes_is_a_short_read() {
    let buf = minimal_header();
    let (r, findings) = decode(&buf[..50]);
    match r {
        Err(Error::IoError(e, name)) => {
            assert_eq!(name, "cache size");
            assert_eq!(e, ShortRead { requested: 4, available: 2 });
        }
        other => panic!("unexpected {:?}", other),
    }
    assert!(findings.is_empty());
}

#[test]
fn empty_input_is_a_short_read_of_the_header_string() {
    let (r, _) = decode(&[]);
    match r {
        Err(Error::IoError(e, name)) => {
            assert_eq!(name, "header string");
            assert_eq!(e, ShortRead { requested: 16, available: 0 });
        }
        other => panic!("unexpected {:?}", other),
    }
}

#[test]
fn every_short_length_fails_without_panic() {
    let buf = reference_header();
    for n in 0..100 {
        let (r, findings) = decode(&buf[..n]);
        assert!(matches!(r, Err(Error::IoError(_, _))), "length {}", n);
        assert!(findings.is_empty());
    }
}

#[test]
fn short_read_names_each_field() {
    let buf = reference_header();
    let cases: [(usize, &str); 10] = [
        (17, "page size"),
        (18, "write version"),
        (21, "Maximum payload fraction"),
        (27, "change counter"),
        (30, "database size"),
        (47, "schema format version"),
        (70, "application id"),
        (80, "reserved zeros"),
        (95, "version valid for"),
        (99, "library write version"),
    ];
    for (n, field) in cases {
        let (r, _) = decode(&buf[..n]);
        match r {
            Err(Error::IoError(_, name)) => assert_eq!(name, field, "length {}", n),
            other => panic!("length {}: unexpected {:?}", n, other),
        }
    }
}

#[test]
fn wrong_magic_is_a_header_string_error() {
    let mut buf = minimal_header();
    buf[14] = b'4';
    let (r, _) = decode(&buf);
    match r {
        Err(Error::HeaderString(text)) => assert_eq!(text, "SQLite format 4\u{0}"),
        other => panic!("unexpected {:?}", other),
    }
}

#[test]
fn wrong_magic_wins_over_a_short_buffer() {
    let buf = b"PostgreSQL dump!".to_vec();
    let (r, _) = decode(&buf);
    match r {
        Err(Error::HeaderString(text)) => assert_eq!(text, "PostgreSQL dump!"),
        other => panic!("unexpected {:?}", other),
    }
}

#[test]
fn invalid_utf8_in_magic_is_replaced() {
    let mut buf = minimal_header();
    buf[0] = 0xFF;
    let (r, _) = decode(&buf);
    match r {
        Err(Error::HeaderString(text)) => assert_eq!(text, "\u{FFFD}QLite format 3\u{0}"),
        other => panic!("unexpected {:?}", other),
    }
}

#[test]
fn every_wrong_first_byte_fails_on_magic() {
    for b in 0..=255u8 {
        if b == b'S' {
            continue;
        }
        let mut buf = minimal_header();
        buf[0] = b;
        let (r, _) = decode(&buf);
        assert!(matches!(r, Err(Error::HeaderString(_))), "byte {}", b);
    }
}

#[test]
fn page_size_rule_on_every_raw_value() {
    for v in 0..=u16::MAX {
        let r = PageSize::try_from(v);
        if v == 1 {
            assert_eq!(r.unwrap().get(), 65536);
        } else if v < 512 {
            match r {
                Err(Error::InvalidPageSize(msg)) => {
                    assert_eq!(msg, format!("value must be >= 512, found: {}", v))
                }
                other => panic!("{}: unexpected {:?}", v, other),
            }
        } else if v.is_power_of_two() {
            assert_eq!(r.unwrap().get(), v as u32);
        } else {
            match r {
                Err(Error::InvalidPageSize(msg)) => {
                    assert_eq!(msg, format!("value must be a power of 2 found: {}", v))
                }
                other => panic!("{}: unexpected {:?}", v, other),
            }
        }
    }
}

#[test]
fn page_size_field_one_means_65536() {
    let mut buf = minimal_header();
    buf[16] = 0;
    buf[17] = 1;
    let (r, _) = decode(&buf);
    assert_eq!(r.unwrap().page_size.get(), 65536);
}

#[test]
fn page_size_bounds() {
    assert_eq!(PageSize::try_from(512).unwrap().get(), 512);
    assert_eq!(PageSize::try_from(32768).unwrap().get(), 32768);
    assert!(matches!(PageSize::try_from(0), Err(Error::InvalidPageSize(_))));
    assert!(matches!(PageSize::try_from(511), Err(Error::InvalidPageSize(_))));
    assert!(matches!(PageSize::try_from(513), Err(Error::InvalidPageSize(_))));
    assert!(matches!(PageSize::try_from(65535), Err(Error::InvalidPageSize(_))));
}

#[test]
fn each_fraction_is_checked_on_its_own() {
    let fixed = [(21usize, 64u8, "Maximum payload fraction"), (22, 32, "Minimum payload fraction"), (23, 32, "Leaf fraction")];
    for (at, target, name) in fixed {
        for wrong in [0u8, 1, 31, 33, 63, 65, 255] {
            if wrong == target {
                continue;
            }
            let mut buf = minimal_header();
            buf[at] = wrong;
            let (r, _) = decode(&buf);
            match r {
                Err(Error::InvalidFraction(msg)) => {
                    assert_eq!(msg, format!("{} must be {}, found: {}", name, target, wrong))
                }
                other => panic!("unexpected {:?}", other),
            }
        }
    }
}

#[test]
fn fraction_error_whatever_the_other_fractions_hold() {
    let mut buf = minimal_header();
    buf[22] = 0;
    buf[23] = 99;
    let (r, _) = decode(&buf);
    match r {
        Err(Error::InvalidFraction(msg)) => assert_eq!(msg, "Minimum payload fraction must be 32, found: 0"),
        other => panic!("unexpected {:?}", other),
    }
}

#[test]
fn schema_version_values() {
    assert!(matches!(SchemaVersion::try_from(0), Err(Error::UnexpectedZero(ref w)) if w == "Schema Version"));
    assert!(matches!(SchemaVersion::try_from(1), Ok(SchemaVersion::One)));
    assert!(matches!(SchemaVersion::try_from(2), Ok(SchemaVersion::Two)));
    assert!(matches!(SchemaVersion::try_from(3), Ok(SchemaVersion::Three)));
    assert!(matches!(SchemaVersion::try_from(4), Ok(SchemaVersion::Four)));
    match SchemaVersion::try_from(5) {
        Ok(SchemaVersion::Unknown(n)) => assert_eq!(n.get(), 5),
        other => panic!("unexpected {:?}", other),
    }
    match SchemaVersion::try_from(u32::MAX) {
        Ok(SchemaVersion::Unknown(n)) => assert_eq!(n.get(), u32::MAX),
        other => panic!("unexpected {:?}", other),
    }
}

#[test]
fn zero_schema_version_stops_decode() {
    let mut buf = minimal_header();
    put_u32(&mut buf, 44, 0);
    let (r, _) = decode(&buf);
    assert!(matches!(r, Err(Error::UnexpectedZero(_))));
}

#[test]
fn nonzero_reserved_region_is_reported_not_fatal() {
    let mut buf = reference_header();
    buf[75] = 9;
    buf[80] = 1;
    let (r, findings) = decode(&buf);
    let h = r.unwrap();
    assert_eq!(h.library_write_version, 3_046_000);
    assert_eq!(h.version_valid_for, 42);
    assert_eq!(findings.len(), 1);
    match &findings[0] {
        Error::UnexpectedNonZero(msg) => assert_eq!(msg, "Reserved space byte: 3"),
        other => panic!("unexpected {:?}", other),
    }
}

#[test]
fn findings_are_appended() {
    let mut buf = minimal_header();
    buf[91] = 1;
    let mut findings = vec![Error::InvalidU32("earlier".to_string())];
    let mut reader = ByteReader::new(&buf);
    assert!(parse_header(&mut reader, &mut findings).is_ok());
    assert_eq!(findings.len(), 2);
    assert!(matches!(&findings[1], Error::UnexpectedNonZero(m) if m == "Reserved space byte: 19"));
}

#[test]
fn no_finding_when_decode_fails_later() {
    let mut buf = minimal_header();
    buf[72] = 1;
    let (r, findings) = decode(&buf[..95]);
    assert!(matches!(r, Err(Error::IoError(_, "version valid for"))));
    assert!(findings.is_empty());
}

#[test]
fn validate_header_string_alone() {
    let buf = minimal_header();
    let mut reader = ByteReader::new(&buf);
    assert!(validate_header_string(&mut reader).is_ok());
    assert_eq!(reader.remaining(), 84);
    let pg = parse_page_size(&mut reader).unwrap();
    assert_eq!(pg.get(), 4096);
    assert_eq!(reader.remaining(), 82);
}

#[test]
fn short_page_size_leaves_reader() {
    let buf = [0x10u8];
    let mut reader = ByteReader::new(&buf);
    match parse_page_size(&mut reader) {
        Err(Error::IoError(e, "page size")) => assert_eq!(e, ShortRead { requested: 2, available: 1 }),
        other => panic!("unexpected {:?}", other),
    }
    assert_eq!(reader.remaining(), 1);
}

#[test]
fn text_encoding_values() {
    assert_eq!(TextEncoding::try_from(1).unwrap(), TextEncoding::Utf8);
    assert_eq!(TextEncoding::try_from(2).unwrap(), TextEncoding::Utf16Le);
    assert_eq!(TextEncoding::try_from(3).unwrap(), TextEncoding::Utf16Be);
    assert_eq!(TextEncoding::try_from(4).unwrap(), TextEncoding::Unknown(4));
}

#[test]
fn format_version_values() {
    assert_eq!(FormatVersion::from(1), FormatVersion::Legacy);
    assert_eq!(FormatVersion::from(2), FormatVersion::WriteAheadLog);
    assert_eq!(FormatVersion::from(3), FormatVersion::Unknown(3));
    assert_eq!(FormatVersion::from(0), FormatVersion::Unknown(0));
}

#[test]
fn vacuum_setting_new() {
    assert!(VacuumSetting::new(0, 1).is_none());
    assert!(matches!(VacuumSetting::new(3, 0), Some(VacuumSetting::Full(n)) if n.get() == 3));
    assert!(matches!(VacuumSetting::new(3, 7), Some(VacuumSetting::Incremental(n)) if n.get() == 3));
}
