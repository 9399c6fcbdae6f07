use vstd::prelude::*;

use crate::error::{failure_of, short_failure, Error, ErrorView};
use crate::text::{decimal, decimal_text, lossy_text, utf8_lossy, with_number};
use crate::{
    advanced, after_read, be_i32_at, be_u16_at, be_u32_at, read_bytes, read_i32, read_u16, read_u32, read_u8,
    ByteReader,
};

verus! {

/// The magic string at the start of every database file: `SQLite format 3` and a zero byte.
pub open spec fn magic() -> Seq<u8> {
    seq![83u8, 81, 76, 105, 116, 101, 32, 102, 111, 114, 109, 97, 116, 32, 51, 0]
}

/// A `u32` that is never zero.
#[derive(Debug, Clone, Copy, PartialEq, Eq)]
pub struct NonZeroU32 {
    value: u32,
}

impl NonZeroU32 {
    #[verifier::type_invariant]
    spec fn inv(&self) -> bool {
        self.value != 0
    }

    /// `Some` of `v` when `v` is not zero, else `None`.
    pub fn new(v: u32) -> (r: Option<Self>)
        ensures
            nonzero_matches(r, v),
    {
        if v == 0 {
            None
        } else {
            Some(NonZeroU32 { value: v })
        }
    }

    /// The value, which is not zero.
    pub fn get(&self) -> (r: u32)
        ensures
            r == self@,
            r != 0,
    {
        proof {
            use_type_invariant(self);
        }
        self.value
    }
}

impl View for NonZeroU32 {
    type V = u32;

    closed spec fn view(&self) -> u32 {
        self.value
    }
}

/// `o` is what a raw field `raw` denotes where zero means absent.
pub open spec fn nonzero_matches(o: Option<NonZeroU32>, raw: u32) -> bool {
    match o {
        None => raw == 0,
        Some(n) => raw != 0 && n@ == raw,
    }
}

/// `n` is a power of two.
pub open spec fn is_power_of_two(n: nat) -> bool
    decreases n,
{
    if n <= 1 {
        n == 1
    } else {
        n % 2 == 0 && is_power_of_two(n / 2)
    }
}

/// The size in bytes of each page: a power of two from 512 to 65536.
#[derive(Debug)]
pub struct PageSize(u32);

impl PageSize {
    #[verifier::type_invariant]
    spec fn inv(&self) -> bool {
        512 <= self.0 <= 65536 && is_power_of_two(self.0 as nat)
    }

    /// The page size in bytes.
    pub fn get(&self) -> (r: u32)
        ensures
            r == self@,
            512 <= r <= 65536,
            is_power_of_two(r as nat),
    {
        proof {
            use_type_invariant(self);
        }
        self.0
    }
}

impl View for PageSize {
    type V = u32;

    closed spec fn view(&self) -> u32 {
        self.0
    }
}

/// The page size that the raw field `v` denotes when it is valid.
pub open spec fn page_size_value(v: u16) -> u32 {
    if v == 1 {
        65536
    } else {
        v as u32
    }
}

/// Why the raw page size field `v` is invalid, if it is.
pub open spec fn page_size_failure(v: u16) -> Option<ErrorView> {
    if v == 1 {
        None
    } else if v < 512 {
        Some(ErrorView::InvalidPageSize("value must be >= 512, found: "@ + decimal(v as nat)))
    } else if !is_power_of_two(v as nat) {
        Some(ErrorView::InvalidPageSize("value must be a power of 2 found: "@ + decimal(v as nat)))
    } else {
        None
    }
}

fn is_power_of_two_u16(v: u16) -> (r: bool)
    ensures
        r == is_power_of_two(v as nat),
{
    if v == 0 {
        return false;
    }
    let mut x: u16 = v;
    while x > 1 && x % 2 == 0
        invariant
            x >= 1,
            is_power_of_two(x as nat) == is_power_of_two(v as nat),
        decreases x,
    {
        x = x / 2;
    }
    x == 1
}

impl TryFrom<u16> for PageSize {
    type Error = Error;

    fn try_from(v: u16) -> (r: Result<PageSize, Error>)
        ensures
            failure_of(r) == page_size_failure(v),
            r matches Ok(p) ==> p@ == page_size_value(v),
    {
        if v == 1 {
            // 65536 does not fit in the field, so the format writes it as 1.
            proof {
                reveal_with_fuel(is_power_of_two, 17);
            }
            Ok(PageSize(65536))
        } else if v < 512 {
            Err(Error::InvalidPageSize(with_number("value must be >= 512, found: ", v as u64)))
        } else if is_power_of_two_u16(v) {
            Ok(PageSize(v as u32))
        } else {
            Err(Error::InvalidPageSize(with_number("value must be a power of 2 found: ", v as u64)))
        }
    }
}

impl vstd::std_specs::convert::TryFromSpecImpl<u16> for PageSize {
    /// The error carries a `String`, which has no value in specifications: the contract of
    /// `try_from` itself says what it returns.
    open spec fn obeys_try_from_spec() -> bool {
        false
    }

    closed spec fn try_from_spec(v: u16) -> Result<PageSize, Error> {
        arbitrary()
    }
}

/// A value of the write or read format version field.
#[derive(Debug, PartialEq, Eq, PartialOrd, Ord)]
pub enum FormatVersion {
    /// The rollback journal.
    Legacy,
    /// The write-ahead log.
    WriteAheadLog,
    /// Any value but 1 and 2, kept as it was found.
    Unknown(u8),
}

/// The format version that the raw byte `v` denotes.
pub open spec fn format_version_of(v: u8) -> FormatVersion {
    if v == 1 {
        FormatVersion::Legacy
    } else if v == 2 {
        FormatVersion::WriteAheadLog
    } else {
        FormatVersion::Unknown(v)
    }
}

impl From<u8> for FormatVersion {
    fn from(v: u8) -> (r: Self) {
        match v {
            1 => Self::Legacy,
            2 => Self::WriteAheadLog,
            _ => Self::Unknown(v),
        }
    }
}

impl vstd::std_specs::convert::FromSpecImpl<u8> for FormatVersion {
    open spec fn obeys_from_spec() -> bool {
        true
    }

    open spec fn from_spec(v: u8) -> FormatVersion {
        format_version_of(v)
    }
}

/// Where the list of free pages starts and how long it is.
#[derive(Debug)]
pub struct FreePageListInfo {
    /// The page number of the first free page.
    pub start_page: NonZeroU32,
    /// The total count of free pages.
    pub length: u32,
}

/// `o` is what the raw first-free-page field `start` and list length `length` denote.
pub open spec fn free_list_matches(o: Option<FreePageListInfo>, start: u32, length: u32) -> bool {
    match o {
        None => start == 0,
        Some(f) => start != 0 && f.start_page@ == start && f.length == length,
    }
}

impl FreePageListInfo {
    /// `None` when `start_page` is zero, which means that no page is free.
    fn new(start_page: u32, length: u32) -> (r: Option<Self>)
        ensures
            free_list_matches(r, start_page, length),
    {
        match NonZeroU32::new(start_page) {
            Some(start_page) => Some(Self { start_page, length }),
            None => None,
        }
    }
}

/// The schema format number.
#[derive(Debug)]
pub enum SchemaVersion {
    /// Readable by every version of the library.
    One,
    /// Readable from version 3.1.3 on.
    Two,
    /// Readable from version 3.1.4 on.
    Three,
    /// Readable from version 3.3.0 on.
    Four,
    /// A number above 4.
    Unknown(NonZeroU32),
}

/// `sv` is what the raw schema format field `v` denotes.
pub open spec fn schema_version_matches(sv: SchemaVersion, v: u32) -> bool {
    match sv {
        SchemaVersion::One => v == 1,
        SchemaVersion::Two => v == 2,
        SchemaVersion::Three => v == 3,
        SchemaVersion::Four => v == 4,
        SchemaVersion::Unknown(n) => v > 4 && n@ == v,
    }
}

/// Why the raw schema format field `v` is invalid, if it is: it may not be zero.
pub open spec fn schema_version_failure(v: u32) -> Option<ErrorView> {
    if v == 0 {
        Some(ErrorView::UnexpectedZero("Schema Version"@))
    } else {
        None
    }
}

impl TryFrom<u32> for SchemaVersion {
    type Error = Error;

    fn try_from(v: u32) -> (r: Result<Self, Error>)
        ensures
            failure_of(r) == schema_version_failure(v),
            r matches Ok(sv) ==> schema_version_matches(sv, v),
    {
        match v {
            1 => Ok(Self::One),
            2 => Ok(Self::Two),
            3 => Ok(Self::Three),
            4 => Ok(Self::Four),
            _ => match NonZeroU32::new(v) {
                Some(value) => Ok(Self::Unknown(value)),
                None => Err(Error::UnexpectedZero(String::from_str("Schema Version"))),
            },
        }
    }
}

impl vstd::std_specs::convert::TryFromSpecImpl<u32> for SchemaVersion {
    /// The error carries a `String`, which has no value in specifications: the contract of
    /// `try_from` itself says what it returns.
    open spec fn obeys_try_from_spec() -> bool {
        false
    }

    closed spec fn try_from_spec(v: u32) -> Result<SchemaVersion, Error> {
        arbitrary()
    }
}

/// How free space is given back to the file system.
#[derive(Debug, Clone, Copy)]
pub enum VacuumSetting {
    /// Full auto-vacuum; holds the largest root page number.
    Full(NonZeroU32),
    /// Incremental vacuum; holds the largest root page number.
    Incremental(NonZeroU32),
}

/// `o` is what the raw largest-root-page field `v` and incremental flag `incremental` denote.
pub open spec fn vacuum_matches(o: Option<VacuumSetting>, v: u32, incremental: u32) -> bool {
    match o {
        None => v == 0,
        Some(VacuumSetting::Full(n)) => v != 0 && incremental == 0 && n@ == v,
        Some(VacuumSetting::Incremental(n)) => v != 0 && incremental != 0 && n@ == v,
    }
}

impl VacuumSetting {
    /// `None` when `v` is zero (no auto-vacuum); else the setting that `is_incremental`
    /// selects, holding `v`.
    pub fn new(v: u32, is_incremental: u32) -> (r: Option<Self>)
        ensures
            vacuum_matches(r, v, is_incremental),
    {
        let non_zero = match NonZeroU32::new(v) {
            Some(n) => n,
            None => return None,
        };
        let ret = if is_incremental > 0 {
            Self::Incremental(non_zero)
        } else {
            Self::Full(non_zero)
        };
        Some(ret)
    }
}

/// The encoding of all text in the database.
#[derive(Debug, PartialEq, Eq)]
pub enum TextEncoding {
    Utf8,
    Utf16Le,
    Utf16Be,
    /// Any value but 1, 2 and 3, kept as it was found.
    Unknown(u32),
}

/// The text encoding that the raw field `v` denotes.
pub open spec fn text_encoding_of(v: u32) -> TextEncoding {
    if v == 1 {
        TextEncoding::Utf8
    } else if v == 2 {
        TextEncoding::Utf16Le
    } else if v == 3 {
        TextEncoding::Utf16Be
    } else {
        TextEncoding::Unknown(v)
    }
}

impl TryFrom<u32> for TextEncoding {
    type Error = Error;

    /// Never fails: values without a name are kept as `Unknown`.
    fn try_from(v: u32) -> (r: Result<Self, Error>) {
        match v {
            1 => Ok(Self::Utf8),
            2 => Ok(Self::Utf16Le),
            3 => Ok(Self::Utf16Be),
            _ => Ok(Self::Unknown(v)),
        }
    }
}

impl vstd::std_specs::convert::TryFromSpecImpl<u32> for TextEncoding {
    open spec fn obeys_try_from_spec() -> bool {
        true
    }

    open spec fn try_from_spec(v: u32) -> Result<TextEncoding, Error> {
        Ok(text_encoding_of(v))
    }
}

/// Why the header string at the front of `s` is missing or wrong, if it is.
pub open spec fn header_string_failure(s: Seq<u8>) -> Option<ErrorView> {
    if s.len() < 16 {
        short_failure(s, 16, "header string")
    } else if s.take(16) != magic() {
        Some(ErrorView::HeaderString(lossy_text(s.take(16))))
    } else {
        None
    }
}

fn is_magic(buf: &[u8; 16]) -> (r: bool)
    ensures
        r == (buf@ == magic()),
{
    let expected: [u8; 16] = [83, 81, 76, 105, 116, 101, 32, 102, 111, 114, 109, 97, 116, 32, 51, 0];
    assert(expected@ =~= magic());
    let mut i: usize = 0;
    while i < 16
        invariant
            0 <= i <= 16,
            expected@ == magic(),
            forall|j: int| 0 <= j < i ==> buf@[j] == expected@[j],
        decreases 16 - i,
    {
        if buf[i] != expected[i] {
            assert(buf@[i as int] != magic()[i as int]);
            return false;
        }
        i += 1;
    }
    assert(buf@ =~= magic());
    true
}

/// Validate that the first 16 bytes of the reader are the magic string at the start
/// of every database file.
pub fn validate_header_string(reader: &mut ByteReader) -> (r: Result<(), Error>)
    ensures
        failure_of(r) == header_string_failure(old(reader)@),
        final(reader)@ == after_read(old(reader)@, 16),
        advanced(*old(reader), *final(reader), 16),
{
    let buf = match read_bytes::<16>(reader) {
        Ok(buf) => buf,
        Err(e) => return Err(Error::IoError(e, "header string")),
    };
    if !is_magic(&buf) {
        // The bytes may not be UTF-8: the lossy reading cannot fail.
        return Err(Error::HeaderString(utf8_lossy(buf.as_slice())));
    }
    Ok(())
}

/// Why the page size field at the front of `s` is missing or invalid, if it is.
pub open spec fn page_size_field_failure(s: Seq<u8>) -> Option<ErrorView> {
    if s.len() < 2 {
        short_failure(s, 2, "page size")
    } else {
        page_size_failure(be_u16_at(s, 0))
    }
}

/// Read the page size field and check it.
pub fn parse_page_size(reader: &mut ByteReader) -> (r: Result<PageSize, Error>)
    ensures
        failure_of(r) == page_size_field_failure(old(reader)@),
        r matches Ok(p) ==> p@ == page_size_value(be_u16_at(old(reader)@, 0)),
        final(reader)@ == after_read(old(reader)@, 2),
        advanced(*old(reader), *final(reader), 2),
{
    let raw_page_size = read_u16(reader, "page size")?;
    PageSize::try_from(raw_page_size)
}

/// Why the fraction byte named `name` at the front of `s` is missing or differs from
/// `target`, if it does.
pub open spec fn fraction_failure(s: Seq<u8>, target: u8, name: &str) -> Option<ErrorView> {
    if s.len() < 1 {
        short_failure(s, 1, name)
    } else if s[0] != target {
        Some(
            ErrorView::InvalidFraction(
                name@ + " must be "@ + decimal(target as nat) + ", found: "@ + decimal(s[0] as nat),
            ),
        )
    } else {
        None
    }
}

/// Check that the next byte, one of the payload or leaf fractions, is `target`.
fn validate_fraction(reader: &mut ByteReader, target: u8, name: &'static str) -> (r: Result<(), Error>)
    ensures
        failure_of(r) == fraction_failure(old(reader)@, target, name),
        final(reader)@ == after_read(old(reader)@, 1),
        advanced(*old(reader), *final(reader), 1),
{
    let byte = read_u8(reader, name)?;
    if byte != target {
        let mut msg = String::from_str(name);
        msg.append(" must be ");
        msg.append(decimal_text(target as u64).as_str());
        msg.append(", found: ");
        msg.append(decimal_text(byte as u64).as_str());
        Err(Error::InvalidFraction(msg))
    } else {
        Ok(())
    }
}

/// The index of the first non-zero byte of `s` at `i` or after, if there is one.
pub open spec fn first_nonzero(s: Seq<u8>, i: int) -> Option<int>
    decreases s.len() - i,
{
    if i < 0 || i >= s.len() {
        None
    } else if s[i] != 0 {
        Some(i)
    } else {
        first_nonzero(s, i + 1)
    }
}

/// What a reserved region `region` that should be all zeros reports: its first
/// non-zero byte, if any.
pub open spec fn reserved_finding(region: Seq<u8>) -> Option<ErrorView> {
    match first_nonzero(region, 0) {
        Some(i) => Some(ErrorView::UnexpectedNonZero("Reserved space byte: "@ + decimal(i as nat))),
        None => None,
    }
}

/// Why the reserved region at the front of `s` is missing or not all zeros, if it is.
pub open spec fn reserved_failure(s: Seq<u8>) -> Option<ErrorView> {
    if s.len() < 20 {
        short_failure(s, 20, "reserved zeros")
    } else {
        reserved_finding(s.take(20))
    }
}

/// Check that the next 20 bytes, reserved for expansion, are all zero.
fn validate_reserved_zeros(reader: &mut ByteReader) -> (r: Result<(), Error>)
    ensures
        failure_of(r) == reserved_failure(old(reader)@),
        final(reader)@ == after_read(old(reader)@, 20),
        advanced(*old(reader), *final(reader), 20),
{
    let bytes = match read_bytes::<20>(reader) {
        Ok(bytes) => bytes,
        Err(e) => return Err(Error::IoError(e, "reserved zeros")),
    };
    let mut i: usize = 0;
    while i < 20
        invariant
            0 <= i <= 20,
            old(reader)@.len() >= 20,
            bytes@ == old(reader)@.take(20),
            reader@ == old(reader)@.skip(20),
            advanced(*old(reader), *reader, 20),
            first_nonzero(bytes@, i as int) == first_nonzero(bytes@, 0),
        decreases 20 - i,
    {
        if bytes[i] != 0 {
            return Err(Error::UnexpectedNonZero(with_number("Reserved space byte: ", i as u64)));
        }
        i += 1;
    }
    Ok(())
}

/// The decoded 100-byte header at the start of a database file.
#[derive(Debug)]
pub struct DatabaseHeader {
    pub page_size: PageSize,
    pub write_version: FormatVersion,
    pub read_version: FormatVersion,
    /// Bytes of unused space at the end of each page.
    pub reserved_bytes: u8,
    pub change_counter: u32,
    /// Size of the database in pages; `None` when it was not recorded.
    pub database_size: Option<NonZeroU32>,
    /// `None` when no page is free.
    pub free_page_list_info: Option<FreePageListInfo>,
    pub schema_cookie: u32,
    pub schema_version: SchemaVersion,
    /// Suggested size of the page cache.
    pub cache_size: u32,
    /// `None` when auto-vacuum is off.
    pub vacuum_setting: Option<VacuumSetting>,
    pub text_encoding: TextEncoding,
    pub user_version: i32,
    pub application_id: u32,
    pub version_valid_for: u32,
    pub library_write_version: u32,
}

/// `a` if it holds a failure, else `b`: of two checks made in turn, the one that stops
/// the decode.
pub open spec fn first(a: Option<ErrorView>, b: Option<ErrorView>) -> Option<ErrorView> {
    if a is Some {
        a
    } else {
        b
    }
}

/// Why the schema format field at the front of `s` is missing or zero, if it is.
pub open spec fn schema_field_failure(s: Seq<u8>) -> Option<ErrorView> {
    if s.len() < 4 {
        short_failure(s, 4, "schema format version")
    } else {
        schema_version_failure(be_u32_at(s, 0))
    }
}

/// The first failure among bytes 0 to 23 of the header `s`: magic string, page size,
/// format versions, reserved byte count and the three fractions.
pub open spec fn front_failure(s: Seq<u8>) -> Option<ErrorView> {
    first(header_string_failure(s),
    first(page_size_field_failure(s.skip(16)),
    first(short_failure(s.skip(18), 1, "write version"),
    first(short_failure(s.skip(19), 1, "read version"),
    first(short_failure(s.skip(20), 1, "reserved bytes length"),
    first(fraction_failure(s.skip(21), 64, "Maximum payload fraction"),
    first(fraction_failure(s.skip(22), 32, "Minimum payload fraction"),
          fraction_failure(s.skip(23), 32, "Leaf fraction"))))))))
}

/// The first failure among the 24 bytes at the front of `t`, which are bytes 24 to 47 of
/// a header: counters, free list and schema fields.
pub open spec fn counters_failure(t: Seq<u8>) -> Option<ErrorView> {
    first(short_failure(t, 4, "change counter"),
    first(short_failure(t.skip(4), 4, "database size"),
    first(short_failure(t.skip(8), 4, "first free page"),
    first(short_failure(t.skip(12), 4, "free page list length"),
    first(short_failure(t.skip(16), 4, "schema cookie"),
          schema_field_failure(t.skip(20)))))))
}

/// The first failure among the 24 bytes at the front of `t`, which are bytes 48 to 71 of
/// a header: cache size, vacuum, text encoding, user version and application id.
pub open spec fn settings_failure(t: Seq<u8>) -> Option<ErrorView> {
    first(short_failure(t, 4, "cache size"),
    first(short_failure(t.skip(4), 4, "auto vacuum"),
    first(short_failure(t.skip(8), 4, "text encoding"),
    first(short_failure(t.skip(12), 4, "user version"),
    first(short_failure(t.skip(16), 4, "incremental vacuum"),
          short_failure(t.skip(20), 4, "application id"))))))
}

/// The first failure among the 28 bytes at the front of `t`, which are bytes 72 to 99 of
/// a header. A reserved region that is not all zeros is no failure: only one cut short is.
pub open spec fn tail_failure(t: Seq<u8>) -> Option<ErrorView> {
    first(short_failure(t, 20, "reserved zeros"),
    first(short_failure(t.skip(20), 4, "version valid for"),
          short_failure(t.skip(24), 4, "library write version")))
}

/// Why decoding the header at the front of `s` fails: the first check, in the order of
/// the fields, that `s` does not pass.
pub open spec fn header_failure(s: Seq<u8>) -> Option<ErrorView> {
    first(front_failure(s),
    first(counters_failure(s.skip(24)),
    first(settings_failure(s.skip(48)),
          tail_failure(s.skip(72)))))
}

/// Each field of `h` is what the corresponding bytes of the header `s` denote.
pub open spec fn header_matches(h: DatabaseHeader, s: Seq<u8>) -> bool {
    &&& h.page_size@ == page_size_value(be_u16_at(s, 16))
    &&& h.write_version == format_version_of(s[18])
    &&& h.read_version == format_version_of(s[19])
    &&& h.reserved_bytes == s[20]
    &&& h.change_counter == be_u32_at(s, 24)
    &&& nonzero_matches(h.database_size, be_u32_at(s, 28))
    &&& free_list_matches(h.free_page_list_info, be_u32_at(s, 32), be_u32_at(s, 36))
    &&& h.schema_cookie == be_u32_at(s, 40)
    &&& schema_version_matches(h.schema_version, be_u32_at(s, 44))
    &&& h.cache_size == be_u32_at(s, 48)
    &&& vacuum_matches(h.vacuum_setting, be_u32_at(s, 52), be_u32_at(s, 64))
    &&& h.text_encoding == text_encoding_of(be_u32_at(s, 56))
    &&& h.user_version == be_i32_at(s, 60)
    &&& h.application_id == be_u32_at(s, 68)
    &&& h.version_valid_for == be_u32_at(s, 92)
    &&& h.library_write_version == be_u32_at(s, 96)
}

/// `after` is `before` with the finding `f` added at its end, if there is one.
pub open spec fn reported(before: Seq<Error>, after: Seq<Error>, f: Option<ErrorView>) -> bool {
    match f {
        None => after == before,
        Some(v) => after.len() == before.len() + 1 && after.drop_last() == before && after.last()@ == v,
    }
}

/// Read bytes 0 to 23 of a header: magic string, page size, format versions, reserved
/// byte count and the three fractions.
fn read_front(reader: &mut ByteReader) -> (r: Result<(PageSize, FormatVersion, FormatVersion, u8), Error>)
    ensures
        failure_of(r) == front_failure(old(reader)@),
        r matches Ok((page_size, write_version, read_version, reserved_bytes)) ==> {
            &&& page_size@ == page_size_value(be_u16_at(old(reader)@, 16))
            &&& write_version == format_version_of(old(reader)@[18])
            &&& read_version == format_version_of(old(reader)@[19])
            &&& reserved_bytes == old(reader)@[20]
            &&& final(reader)@ == old(reader)@.skip(24)
        },
        advanced(*old(reader), *final(reader), 24),
{
    let ghost s = reader@;
    validate_header_string(reader)?;
    assert(reader@ =~= s.skip(16));
    let page_size = parse_page_size(reader)?;
    assert(reader@ =~= s.skip(18));
    let write_version = FormatVersion::from(read_u8(reader, "write version")?);
    assert(reader@ =~= s.skip(19));
    let read_version = FormatVersion::from(read_u8(reader, "read version")?);
    assert(reader@ =~= s.skip(20));
    let reserved_bytes = read_u8(reader, "reserved bytes length")?;
    assert(reader@ =~= s.skip(21));
    validate_fraction(reader, 64, "Maximum payload fraction")?;
    assert(reader@ =~= s.skip(22));
    validate_fraction(reader, 32, "Minimum payload fraction")?;
    assert(reader@ =~= s.skip(23));
    validate_fraction(reader, 32, "Leaf fraction")?;
    assert(reader@ =~= s.skip(24));
    Ok((page_size, write_version, read_version, reserved_bytes))
}

/// Read bytes 24 to 47 of a header: change counter, database size, free list, schema
/// cookie and schema format.
fn read_counters(reader: &mut ByteReader) -> (r: Result<
    (u32, Option<NonZeroU32>, Option<FreePageListInfo>, u32, SchemaVersion),
    Error,
>)
    ensures
        failure_of(r) == counters_failure(old(reader)@),
        r matches Ok((change_counter, database_size, free_list, schema_cookie, schema_version)) ==> {
            &&& change_counter == be_u32_at(old(reader)@, 0)
            &&& nonzero_matches(database_size, be_u32_at(old(reader)@, 4))
            &&& free_list_matches(free_list, be_u32_at(old(reader)@, 8), be_u32_at(old(reader)@, 12))
            &&& schema_cookie == be_u32_at(old(reader)@, 16)
            &&& schema_version_matches(schema_version, be_u32_at(old(reader)@, 20))
            &&& final(reader)@ == old(reader)@.skip(24)
        },
        advanced(*old(reader), *final(reader), 24),
{
    let ghost t = reader@;
    let change_counter = read_u32(reader, "change counter")?;
    assert(reader@ =~= t.skip(4));
    let database_size = NonZeroU32::new(read_u32(reader, "database size")?);
    assert(reader@ =~= t.skip(8));
    let first_free_page = read_u32(reader, "first free page")?;
    assert(reader@ =~= t.skip(12));
    let free_page_len = read_u32(reader, "free page list length")?;
    assert(reader@ =~= t.skip(16));
    let free_page_list_info = FreePageListInfo::new(first_free_page, free_page_len);
    let schema_cookie = read_u32(reader, "schema cookie")?;
    assert(reader@ =~= t.skip(20));
    let raw_schema_version = read_u32(reader, "schema format version")?;
    assert(reader@ =~= t.skip(24));
    let schema_version = SchemaVersion::try_from(raw_schema_version)?;
    Ok((change_counter, database_size, free_page_list_info, schema_cookie, schema_version))
}

/// Read bytes 48 to 71 of a header: cache size, vacuum setting, text encoding, user version
/// and application id.
fn read_settings(reader: &mut ByteReader) -> (r: Result<
    (u32, Option<VacuumSetting>, TextEncoding, i32, u32),
    Error,
>)
    ensures
        failure_of(r) == settings_failure(old(reader)@),
        r matches Ok((cache_size, vacuum_setting, text_encoding, user_version, application_id)) ==> {
            &&& cache_size == be_u32_at(old(reader)@, 0)
            &&& vacuum_matches(vacuum_setting, be_u32_at(old(reader)@, 4), be_u32_at(old(reader)@, 16))
            &&& text_encoding == text_encoding_of(be_u32_at(old(reader)@, 8))
            &&& user_version == be_i32_at(old(reader)@, 12)
            &&& application_id == be_u32_at(old(reader)@, 20)
            &&& final(reader)@ == old(reader)@.skip(24)
        },
        advanced(*old(reader), *final(reader), 24),
{
    let ghost t = reader@;
    let cache_size = read_u32(reader, "cache size")?;
    assert(reader@ =~= t.skip(4));
    let raw_vacuum = read_u32(reader, "auto vacuum")?;
    assert(reader@ =~= t.skip(8));
    let raw_text_enc = read_u32(reader, "text encoding")?;
    assert(reader@ =~= t.skip(12));
    let text_encoding = TextEncoding::try_from(raw_text_enc)?;
    let user_version = read_i32(reader, "user version")?;
    assert(reader@ =~= t.skip(16));
    let incremental_vacuum = read_u32(reader, "incremental vacuum")?;
    assert(reader@ =~= t.skip(20));
    let vacuum_setting = VacuumSetting::new(raw_vacuum, incremental_vacuum);
    let application_id = read_u32(reader, "application id")?;
    assert(reader@ =~= t.skip(24));
    Ok((cache_size, vacuum_setting, text_encoding, user_version, application_id))
}

/// Decode the 100-byte header at the front of the reader.
///
/// Stops at the first field that is missing or invalid and returns its error. A reserved
/// region that is not all zeros does not stop the decode: on success the finding is added
/// to `findings`, which is left as it was when the decode fails.
pub fn parse_header(reader: &mut ByteReader, findings: &mut Vec<Error>) -> (r: Result<DatabaseHeader, Error>)
    ensures
        failure_of(r) == header_failure(old(reader)@),
        r matches Ok(h) ==> header_matches(h, old(reader)@),
        r is Ok ==> final(reader)@ == old(reader)@.skip(100),
        advanced(*old(reader), *final(reader), 100),
        r is Ok ==> reported(old(findings)@, final(findings)@, reserved_finding(old(reader)@.subrange(72, 92))),
        r is Err ==> final(findings)@ == old(findings)@,
{
    let ghost s = reader@;
    let (page_size, write_version, read_version, reserved_bytes) = read_front(reader)?;
    assert(reader@ =~= s.skip(24));
    let (change_counter, database_size, free_page_list_info, schema_cookie, schema_version) =
        read_counters(reader)?;
    assert(reader@ =~= s.skip(48));
    let (cache_size, vacuum_setting, text_encoding, user_version, application_id) =
        read_settings(reader)?;
    assert(reader@ =~= s.skip(72));
    // A reserved region that is not all zeros is reported, not fatal.
    let finding = match validate_reserved_zeros(reader) {
        Ok(()) => None,
        Err(Error::IoError(e, name)) => return Err(Error::IoError(e, name)),
        Err(e) => Some(e),
    };
    assert(reader@ =~= s.skip(92));
    assert(s.skip(72).take(20) =~= s.subrange(72, 92));
    let version_valid_for = read_u32(reader, "version valid for")?;
    assert(reader@ =~= s.skip(96));
    let library_write_version = read_u32(reader, "library write version")?;
    assert(reader@ =~= s.skip(100));
    if let Some(e) = finding {
        findings.push(e);
        assert(findings@.drop_last() =~= old(findings)@);
    }
    Ok(DatabaseHeader {
        page_size,
        write_version,
        read_version,
        reserved_bytes,
        change_counter,
        database_size,
        free_page_list_info,
        schema_cookie,
        schema_version,
        cache_size,
        vacuum_setting,
        text_encoding,
        user_version,
        application_id,
        version_valid_for,
        library_write_version,
    })
}

} // verus!
