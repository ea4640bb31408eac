//! Definitions shared by the hibernate and resume paths.

use sha2::Digest;
use vstd::prelude::*;
use vstd::string::*;
use vstd::utf8::encode_utf8;

verus! {

#[verifier::external_type_specification]
#[verifier::external_body]
pub struct ExErrno(nix::errno::Errno);

/// What can go wrong while hibernating or resuming.
#[derive(Debug)]
pub enum HibernateError {
    /// Cookie error
    CookieError(String),
    /// Hibernate is not supported.
    HibernateNotSupportedError(String),
    /// Insufficient memory available.
    InsufficientMemoryAvailableError(),
    /// Insufficient free disk space available.
    InsufficientDiskSpaceError(),
    /// Failed to send metrics.
    MetricsSendFailure(String),
    /// The hiberimage is not set up.
    NoHiberimageError(),
    /// Failed to lock process memory.
    MlockallError(nix::Error),
    /// Mmap error.
    MmapError(nix::Error),
    /// Snapshot device error.
    SnapshotError(String),
    /// Snapshot ioctl error.
    SnapshotIoctlError(String, nix::Error),
    /// Mount not found.
    MountNotFoundError(),
    /// Failed to shut down.
    ShutdownError(nix::Error),
    /// Hibernate volume error.
    HibernateVolumeError(),
    /// Spawned process error.
    SpawnedProcessError(i32),
    /// PinWeaver credentials exist.
    PinWeaverCredentialsExist(),
    /// Index out of range.
    IndexOutOfRangeError(),
    /// Device mapper error.
    DeviceMapperError(String),
    /// The stateful snapshots did not merge in time.
    MergeTimeoutError(),
    /// The update engine is busy.
    UpdateEngineBusyError(),
    /// The integrity key could not be retrieved.
    KeyRetrievalError(),
    /// Stat of a device failed.
    SnapshotStatDeviceError(nix::Error),
    /// The current user is not the one who hibernated.
    UserMismatchError(),
    /// The image preloader was already stopped.
    PreloaderStoppedError(),
    /// An I/O operation failed.
    IoError(String),
}

/// The hibernate stages.
#[derive(Clone, Copy, Debug, PartialEq, Eq, Structural)]
pub enum HibernateStage {
    Suspend,
    Resume,
}

/// Options affecting hibernate.
#[derive(Debug, Default)]
pub struct HibernateOptions {
    pub dry_run: bool,
    pub reboot: bool,
}

/// Options affecting resume-init.
#[derive(Debug, Default)]
pub struct ResumeInitOptions {
    pub force: bool,
}

/// Options affecting resume.
#[derive(Clone, Copy, Debug, Default)]
pub struct ResumeOptions {
    pub dry_run: bool,
}

/// Options affecting abort-resume.
#[derive(Debug)]
pub struct AbortResumeOptions {
    pub reason: String,
}

impl Default for AbortResumeOptions {
    fn default() -> (r: Self)
        ensures
            r.reason@ == "Manually aborted by hiberman abort-resume"@,
    {
        AbortResumeOptions { reason: String::from_str("Manually aborted by hiberman abort-resume") }
    }
}

/// Zram writeback statistics, in bytes.
#[derive(Clone, Copy, Debug, PartialEq, Eq, Structural)]
pub struct ZramWritebackStats {
    pub bytes_on_disk: u64,
    pub total_bytes_read: u64,
    pub total_bytes_written: u64,
}

/// The size of the pages that zram counts in.
pub const ZRAM_PAGE_SIZE: u64 = 4096;

/// The whitespace-separated fields of `s`, as `str::split_whitespace` gives
/// them.
pub uninterp spec fn whitespace_fields(s: Seq<char>) -> Seq<Seq<char>>;

/// Relies on `str::split_whitespace`: the fields depend on the characters
/// alone.
#[verifier::external_body]
pub(crate) fn split_whitespace(s: &str) -> (r: Vec<String>)
    ensures
        r@.len() == whitespace_fields(s@).len(),
        forall|i: int| 0 <= i < r@.len() ==> #[trigger] r@[i]@ == whitespace_fields(s@)[i],
{
    s.split_whitespace().map(|t| t.to_string()).collect()
}

/// The lines of `s`, as `str::lines` gives them.
pub uninterp spec fn lines_of(s: Seq<char>) -> Seq<Seq<char>>;

/// Relies on `str::lines`: the lines depend on the characters alone.
#[verifier::external_body]
pub(crate) fn lines(s: &str) -> (r: Vec<String>)
    ensures
        r@.len() == lines_of(s@).len(),
        forall|i: int| 0 <= i < r@.len() ==> #[trigger] r@[i]@ == lines_of(s@)[i],
{
    s.lines().map(|l| l.to_string()).collect()
}

/// The number that the ASCII digits of `s` write.
pub open spec fn digits_value(s: Seq<char>) -> int
    decreases s.len(),
{
    if s.len() == 0 {
        0
    } else {
        digits_value(s.drop_last()) * 10 + (s.last() as int - '0' as int)
    }
}

/// The number `str::parse::<u64>` reads from `s`: an optional `+` followed
/// by at least one ASCII digit and nothing else, with a value that fits.
pub open spec fn parsed_u64(s: Seq<char>) -> Option<u64> {
    let d = if s.len() > 0 && s[0] == '+' {
        s.drop_first()
    } else {
        s
    };
    if d.len() > 0 && (forall|i: int| 0 <= i < d.len() ==> '0' <= #[trigger] d[i] <= '9')
        && digits_value(d) <= u64::MAX {
        Some(digits_value(d) as u64)
    } else {
        None
    }
}

/// Relies on `str::parse::<u64>`: an optional `+` sign followed by digits
/// only; any other text, or a value out of range, is an error.
#[verifier::external_body]
pub(crate) fn parse_u64(s: &str) -> (r: Option<u64>)
    ensures
        r == parsed_u64(s@),
{
    s.parse::<u64>().ok()
}

/// The byte count of the `i`-th field of `fields`, read as a number of zram
/// pages.
pub open spec fn field_bytes(fields: Seq<Seq<char>>, i: int) -> Option<int> {
    if i < fields.len() {
        match parsed_u64(fields[i]) {
            Some(n) => Some(n * ZRAM_PAGE_SIZE),
            None => None,
        }
    } else {
        None
    }
}

/// Whether `v` is a byte count that fits in a `u64`.
pub open spec fn fits(v: Option<int>) -> bool {
    v matches Some(n) && n <= u64::MAX
}

/// Reads the zram `bd_stat` file's content: its first three fields are the
/// pages on disk, read and written. `None` where one is missing, is not a
/// number or does not fit in bytes.
pub fn zram_get_bd_stats(content: &str) -> (r: Option<ZramWritebackStats>)
    ensures
        ({
            let f = whitespace_fields(content@);
            &&& r is Some <==> (fits(field_bytes(f, 0)) && fits(field_bytes(f, 1)) && fits(
                field_bytes(f, 2),
            ))
            &&& r matches Some(z) ==> (Some(z.bytes_on_disk as int) == field_bytes(f, 0) && Some(
                z.total_bytes_read as int,
            ) == field_bytes(f, 1) && Some(z.total_bytes_written as int) == field_bytes(f, 2))
        }),
{
    let fields = split_whitespace(content);
    if fields.len() < 3 {
        return None;
    }
    let mut values: [u64; 3] = [0, 0, 0];
    let mut i: usize = 0;
    while i < 3
        invariant
            fields@.len() >= 3,
            fields@.len() == whitespace_fields(content@).len(),
            forall|k: int| 0 <= k < fields@.len() ==> #[trigger] fields@[k]@ == whitespace_fields(content@)[k],
            0 <= i <= 3,
            forall|k: int| 0 <= k < i ==> Some(values@[k] as int) == field_bytes(whitespace_fields(content@), k),
        decreases 3 - i,
    {
        assert(fields@[i as int]@ == whitespace_fields(content@)[i as int]);
        let pages = match parse_u64(fields[i].as_str()) {
            Some(n) => n,
            None => return None,
        };
        if pages > u64::MAX / ZRAM_PAGE_SIZE {
            return None;
        }
        values[i] = pages * ZRAM_PAGE_SIZE;
        i = i + 1;
    }
    Some(ZramWritebackStats {
        bytes_on_disk: values[0],
        total_bytes_read: values[1],
        total_bytes_written: values[2],
    })
}

/// Bytes in a mebibyte.
pub const MIB: u64 = 1048576;

/// The amount of free physical memory, in megabytes, of a system with
/// `page_count` free pages of `page_size` bytes each; `u32::MAX` where the
/// amount does not fit.
pub fn get_available_memory_mb(page_size: u64, page_count: u64) -> (mb: u32)
    ensures
        mb as int == if page_count * page_size / (MIB as int) <= u32::MAX as int {
            page_count * page_size / (MIB as int)
        } else {
            u32::MAX as int
        },
{
    assert(page_count as int * page_size as int <= (u64::MAX as int) * (u64::MAX as int))
        by (nonlinear_arith)
        requires
            page_count <= u64::MAX,
            page_size <= u64::MAX,
    ;
    let total: u128 = page_count as u128 * page_size as u128;
    let mb: u128 = total / (MIB as u128);
    if mb <= u32::MAX as u128 {
        mb as u32
    } else {
        u32::MAX
    }
}

/// The name of the block device of partition one (stateful) on the root
/// block device `rootdev`: a `p` separates the partition number from a name
/// that ends in a digit.
pub fn stateful_block_partition_one(rootdev: &str) -> (r: String)
    ensures
        r@ == rootdev@ + if rootdev@.len() > 0 && is_numeric_char(rootdev@.last()) {
            "p1"@
        } else {
            "1"@
        },
        rootdev@.len() > 0 && '0' <= rootdev@.last() <= '9' ==> r@ == rootdev@ + "p1"@,
{
    let n = rootdev.unicode_len();
    let mut r = String::from_str(rootdev);
    if n > 0 && char_is_numeric(rootdev.get_char(n - 1)) {
        r.append("p1");
    } else {
        r.append("1");
    }
    r
}

/// What `char::is_numeric` says of `c`.
pub uninterp spec fn is_numeric_char(c: char) -> bool;

/// Relies on `char::is_numeric`: whether `c` is in one of Unicode's numeric
/// categories, which hold the ASCII digits.
#[verifier::external_body]
fn char_is_numeric(c: char) -> (r: bool)
    ensures
        r == is_numeric_char(c),
        '0' <= c <= '9' ==> r,
{
    c.is_numeric()
}

/// What `str::to_lowercase` returns for `s`.
pub uninterp spec fn lowercase_of(s: Seq<char>) -> Seq<char>;

/// Relies on `str::to_lowercase`: the result depends on the characters alone.
#[verifier::external_body]
fn to_lowercase(s: &str) -> (r: String)
    ensures
        r@ == lowercase_of(s@),
{
    s.to_lowercase()
}

/// The SHA-256 digest of `data`.
pub uninterp spec fn sha256_of(data: Seq<u8>) -> Seq<u8>;

/// Relies on `sha2::Sha256::digest`: a digest of 32 bytes that depends on
/// the data alone.
#[verifier::external_body]
fn sha256_digest(data: &[u8]) -> (r: Vec<u8>)
    ensures
        r@ == sha256_of(data@),
        r@.len() == 32,
{
    sha2::Sha256::digest(data).to_vec()
}

/// The lowercase hexadecimal digit for `n < 16`.
pub open spec fn hex_digit(n: int) -> char {
    if n < 10 {
        (n + '0' as int) as char
    } else {
        (n - 10 + 'a' as int) as char
    }
}

/// Bytes written as lowercase hexadecimal, two digits each, high nibble first.
pub open spec fn hex_of(b: Seq<u8>) -> Seq<char>
    decreases b.len(),
{
    if b.len() == 0 {
        Seq::empty()
    } else {
        seq![hex_digit(b[0] as int / 16), hex_digit(b[0] as int % 16)] + hex_of(b.drop_first())
    }
}

/// Relies on `hex::encode`: each byte becomes two lowercase digits.
#[verifier::external_body]
pub(crate) fn hex_encode(b: &[u8]) -> (r: String)
    ensures
        r@ == hex_of(b@),
{
    hex::encode(b)
}

/// The obfuscated form of an account id: the lowercase hexadecimal SHA-256
/// digest of its UTF-8 encoding after lower-casing.
pub open spec fn sanitized(username: Seq<char>) -> Seq<char> {
    hex_of(sha256_of(encode_utf8(lowercase_of(username))))
}

/// Obfuscates the given username, so that no plain account id is kept or
/// compared.
pub fn sanitize_username(username: &str) -> (r: Result<String, HibernateError>)
    ensures
        r is Ok,
        r matches Ok(s) ==> s@ == sanitized(username@),
        r matches Ok(s) ==> s@.len() == 64,
{
    let lower = to_lowercase(username);
    let digest = sha256_digest(lower.as_str().as_bytes());
    proof {
        lemma_hex_of_len(digest@);
    }
    Ok(hex_encode(digest.as_slice()))
}

/// Two digits for each byte.
pub proof fn lemma_hex_of_len(b: Seq<u8>)
    ensures
        hex_of(b).len() == 2 * b.len(),
    decreases b.len(),
{
    if b.len() > 0 {
        lemma_hex_of_len(b.drop_first());
    }
}

} // verus!
