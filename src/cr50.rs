//! Reading the RMA serial-number bits of a cr50 security chip through the
//! TPM's NV_Read command, sent with `trunks_send --raw`.

use crate::hiberutil::{hex_encode, hex_of};
use vstd::prelude::*;
use vstd::slice::{slice_subrange, slice_to_vec};
use vstd::string::*;

verus! {

#[verifier::external_type_specification]
#[verifier::external_body]
pub struct ExFromHexError(hex::FromHexError);

/// Errors of the TPM tools.
#[derive(Clone, Copy, Debug, PartialEq, Eq, Structural)]
pub enum HwsecError {
    /// The data read does not have the expected shape.
    InternalError,
    /// The command could not be run, or exited with a failure.
    CommandRunnerError,
    /// The TPM's response is not well formed.
    Tpm2ResponseBadFormatError,
    /// The TPM answered with this response code.
    Tpm2Error(u32),
}

/// The serial-number bits kept by cr50 for RMA.
#[derive(Clone, Copy, Debug, PartialEq, Eq)]
pub struct RmaSnBits {
    pub sn_data_version: [u8; 3],
    pub rma_status: u8,
    pub sn_bits: [u8; 12],
    pub standalone_rma_sn_bits: Option<[u8; 4]>,
}

/// The exit status and standard output of a command.
#[derive(Debug)]
pub struct CommandOutput {
    pub status: i32,
    pub stdout: Vec<u8>,
}

/// Where TPM commands are run.
pub trait Context {
    /// Runs `program` with `args`.
    fn run_command(&mut self, program: &str, args: &Vec<String>) -> Result<
        CommandOutput,
        HwsecError,
    >;
}

/// The NV index of the serial-number bits.
pub const READ_SN_BITS_INDEX: u32 = 0x013fff01;
/// The length of the serial-number bits.
pub const READ_SN_BITS_LENGTH: u16 = 16;

/// The four bytes of `v`, most significant first.
pub open spec fn be32_bytes(v: u32) -> Seq<u8> {
    seq![
        (v / 0x1000000) as u8,
        (v / 0x10000 % 0x100) as u8,
        (v / 0x100 % 0x100) as u8,
        (v % 0x100) as u8,
    ]
}

/// The two bytes of `v`, most significant first.
pub open spec fn be16_bytes(v: u16) -> Seq<u8> {
    seq![(v / 0x100) as u8, (v % 0x100) as u8]
}

/// The TPM2 NV_Read command for `length` bytes at offset 0 of the NV index
/// `index`, authorized by the index itself with an empty password session.
pub open spec fn nv_read_command_bytes(index: u32, length: u16) -> Seq<u8> {
    seq![0x80u8, 0x02, 0x00, 0x00, 0x00, 0x23, 0x00, 0x00, 0x01, 0x4e] + be32_bytes(index)
        + be32_bytes(index) + seq![
        0x00u8,
        0x00,
        0x00,
        0x09,
        0x40,
        0x00,
        0x00,
        0x09,
        0x00,
        0x00,
        0x00,
        0x00,
        0x00,
    ] + be16_bytes(length) + seq![0x00u8, 0x00]
}

/// Builds the NV_Read command.
pub fn nv_read_command(index: u32, length: u16) -> (r: Vec<u8>)
    ensures
        r@ == nv_read_command_bytes(index, length),
{
    let i0 = (index / 0x1000000) as u8;
    let i1 = (index / 0x10000 % 0x100) as u8;
    let i2 = (index / 0x100 % 0x100) as u8;
    let i3 = (index % 0x100) as u8;
    let l0 = (length / 0x100) as u8;
    let l1 = (length % 0x100) as u8;
    let r = vec![
        0x80u8, 0x02, 0x00, 0x00, 0x00, 0x23, 0x00, 0x00, 0x01, 0x4e,
        i0, i1, i2, i3, i0, i1, i2, i3,
        0x00, 0x00, 0x00, 0x09, 0x40, 0x00, 0x00, 0x09, 0x00, 0x00, 0x00, 0x00, 0x00,
        l0, l1, 0x00, 0x00,
    ];
    assert(r@ =~= nv_read_command_bytes(index, length));
    r
}

/// The big-endian number in the four bytes of `b` from `i`.
pub open spec fn be32_at(b: Seq<u8>, i: int) -> int {
    b[i] * 0x1000000 + b[i + 1] * 0x10000 + b[i + 2] * 0x100 + b[i + 3]
}

/// The big-endian number in the two bytes of `b` from `i`.
pub open spec fn be16_at(b: Seq<u8>, i: int) -> int {
    b[i] * 0x100 + b[i + 1]
}

/// The data an NV_Read response carries: after the 10-byte header (tag,
/// size, response code) come the parameter size and the sized buffer. A
/// nonzero response code is the TPM's error.
pub open spec fn nv_read_data(resp: Seq<u8>) -> Result<Seq<u8>, HwsecError> {
    if resp.len() < 10 {
        Err(HwsecError::Tpm2ResponseBadFormatError)
    } else if be32_at(resp, 6) != 0 {
        Err(HwsecError::Tpm2Error(be32_at(resp, 6) as u32))
    } else if resp.len() < 16 || 16 + be16_at(resp, 14) > resp.len() {
        Err(HwsecError::Tpm2ResponseBadFormatError)
    } else {
        Ok(resp.subrange(16, 16 + be16_at(resp, 14)))
    }
}

/// Extracts the data from an NV_Read response.
pub fn parse_nv_read_response(resp: &[u8]) -> (r: Result<Vec<u8>, HwsecError>)
    ensures
        match (r, nv_read_data(resp@)) {
            (Ok(v), Ok(d)) => v@ == d,
            (Err(e), Err(f)) => e == f,
            _ => false,
        },
{
    if resp.len() < 10 {
        return Err(HwsecError::Tpm2ResponseBadFormatError);
    }
    let rc: u32 = resp[6] as u32 * 0x1000000 + resp[7] as u32 * 0x10000 + resp[8] as u32 * 0x100
        + resp[9] as u32;
    if rc != 0 {
        return Err(HwsecError::Tpm2Error(rc));
    }
    if resp.len() < 16 {
        return Err(HwsecError::Tpm2ResponseBadFormatError);
    }
    let size: usize = resp[14] as usize * 0x100 + resp[15] as usize;
    if size > resp.len() - 16 {
        return Err(HwsecError::Tpm2ResponseBadFormatError);
    }
    let data = slice_to_vec(slice_subrange(resp, 16, 16 + size));
    Ok(data)
}

/// Whether `b` is an ASCII whitespace byte.
pub open spec fn is_ascii_space(b: u8) -> bool {
    b == 0x20 || b == 0x09 || b == 0x0a || b == 0x0d || b == 0x0c
}

/// The length of `s` without its trailing ASCII whitespace.
pub open spec fn trimmed_len(s: Seq<u8>) -> int
    decreases s.len(),
{
    if s.len() > 0 && is_ascii_space(s.last()) {
        trimmed_len(s.drop_last())
    } else {
        s.len() as int
    }
}

/// The length of `s` without its trailing ASCII whitespace.
pub fn trimmed_length(s: &[u8]) -> (r: usize)
    ensures
        r == trimmed_len(s@),
        r <= s@.len(),
{
    let mut end: usize = s.len();
    assert(s@.subrange(0, end as int) =~= s@);
    while end > 0 && (s[end - 1] == 0x20 || s[end - 1] == 0x09 || s[end - 1] == 0x0a || s[end
        - 1] == 0x0d || s[end - 1] == 0x0c)
        invariant
            end <= s@.len(),
            trimmed_len(s@.subrange(0, end as int)) == trimmed_len(s@),
        decreases end,
    {
        assert(s@.subrange(0, end as int).drop_last() =~= s@.subrange(0, end - 1));
        end = end - 1;
    }
    end
}

/// The value of a hexadecimal digit, either case.
pub open spec fn hex_value(c: u8) -> int {
    if 0x30 <= c <= 0x39 {
        c - 0x30
    } else if 0x61 <= c <= 0x66 {
        c - 0x61 + 10
    } else {
        c - 0x41 + 10
    }
}

/// Whether `c` is a hexadecimal digit, either case.
pub open spec fn is_hex_digit(c: u8) -> bool {
    (0x30 <= c <= 0x39) || (0x61 <= c <= 0x66) || (0x41 <= c <= 0x46)
}

/// Whether `s` is a string of hexadecimal digit pairs.
pub open spec fn is_hex(s: Seq<u8>) -> bool {
    s.len() % 2 == 0 && forall|i: int| 0 <= i < s.len() ==> #[trigger] is_hex_digit(s[i])
}

/// The bytes that the digit pairs of `s` stand for, high digit first.
pub open spec fn hex_bytes(s: Seq<u8>) -> Seq<u8> {
    Seq::new((s.len() / 2) as nat, |i: int| (hex_value(s[2 * i]) * 16 + hex_value(s[2 * i + 1])) as u8)
}

/// Relies on `hex::decode`: the bytes of a string of hexadecimal digit pairs
/// in either case, and an error for an odd length or another character.
#[verifier::external_body]
fn hex_decode(s: &[u8]) -> (r: Result<Vec<u8>, hex::FromHexError>)
    ensures
        r is Ok <==> is_hex(s@),
        r matches Ok(v) ==> v@ == hex_bytes(s@),
{
    hex::decode(s)
}

/// The arguments handed to `trunks_send` for an NV_Read: `--raw` and the
/// command in lowercase hexadecimal.
pub fn nv_read_args(index: u32, length: u16) -> (r: Vec<String>)
    ensures
        r@.len() == 2,
        r@[0]@ == "--raw"@,
        r@[1]@ == hex_of(nv_read_command_bytes(index, length)),
{
    let command = nv_read_command(index, length);
    vec![String::from_str("--raw"), hex_encode(command.as_slice())]
}

/// What an NV_Read yields from the run of `trunks_send`: a failed run or a
/// nonzero exit is `CommandRunnerError`; output that is not hexadecimal,
/// once trailing whitespace is removed, is `Tpm2ResponseBadFormatError`;
/// otherwise the response is read as `nv_read_data` says.
pub open spec fn nv_read_outcome(out: Result<CommandOutput, HwsecError>) -> Result<
    Seq<u8>,
    HwsecError,
> {
    match out {
        Err(_) => Err(HwsecError::CommandRunnerError),
        Ok(o) => if o.status != 0 {
            Err(HwsecError::CommandRunnerError)
        } else {
            let text = o.stdout@.subrange(0, trimmed_len(o.stdout@));
            if is_hex(text) {
                nv_read_data(hex_bytes(text))
            } else {
                Err(HwsecError::Tpm2ResponseBadFormatError)
            }
        },
    }
}

/// Whether the read `r` is what `d` describes.
pub open spec fn same_read(r: Result<Vec<u8>, HwsecError>, d: Result<Seq<u8>, HwsecError>) -> bool {
    match (r, d) {
        (Ok(v), Ok(x)) => v@ == x,
        (Err(e), Err(f)) => e == f,
        _ => false,
    }
}

/// The data of an NV_Read, from the run of `trunks_send`.
pub fn nv_read_result(out: Result<CommandOutput, HwsecError>) -> (r: Result<Vec<u8>, HwsecError>)
    ensures
        same_read(r, nv_read_outcome(out)),
{
    let output = match out {
        Ok(output) => output,
        Err(_) => return Err(HwsecError::CommandRunnerError),
    };
    if output.status != 0 {
        return Err(HwsecError::CommandRunnerError);
    }
    let end = trimmed_length(output.stdout.as_slice());
    let text = slice_subrange(output.stdout.as_slice(), 0, end);
    let response = match hex_decode(text) {
        Ok(response) => response,
        Err(_) => return Err(HwsecError::Tpm2ResponseBadFormatError),
    };
    parse_nv_read_response(response.as_slice())
}

/// Sends an NV_Read of `length` bytes at `index`: runs `trunks_send` with
/// `nv_read_args(index, length)` and reads its outcome with
/// `nv_read_result`. What the run gives is up to the context; for every
/// outcome the result is the one `nv_read_outcome` states.
pub fn nv_read<C: Context>(ctx: &mut C, index: u32, length: u16) -> (r: Result<Vec<u8>, HwsecError>)
    ensures
        exists|out: Result<CommandOutput, HwsecError>| same_read(r, #[trigger] nv_read_outcome(out)),
{
    let args = nv_read_args(index, length);
    let out = ctx.run_command("trunks_send", &args);
    let ghost o = out;
    let r = nv_read_result(out);
    assert(same_read(r, nv_read_outcome(o)));
    r
}

/// The serial-number bits in the 16 bytes read from their NV index: three
/// bytes of data version, the RMA status byte, and twelve bytes of bits.
/// Data of another length is an `InternalError`.
pub fn rma_sn_bits_from(data: &[u8]) -> (r: Result<RmaSnBits, HwsecError>)
    ensures
        data@.len() != 16 ==> r == Err::<RmaSnBits, HwsecError>(HwsecError::InternalError),
        data@.len() == 16 ==> (r matches Ok(b) && b.sn_data_version@ == data@.subrange(0, 3)
            && b.rma_status == data@[3] && b.sn_bits@ == data@.subrange(4, 16)
            && b.standalone_rma_sn_bits is None),
{
    if data.len() != 16 {
        return Err(HwsecError::InternalError);
    }
    let b = RmaSnBits {
        sn_data_version: [data[0], data[1], data[2]],
        rma_status: data[3],
        sn_bits: [
            data[4],
            data[5],
            data[6],
            data[7],
            data[8],
            data[9],
            data[10],
            data[11],
            data[12],
            data[13],
            data[14],
            data[15],
        ],
        standalone_rma_sn_bits: None,
    };
    assert(b.sn_data_version@ =~= data@.subrange(0, 3));
    assert(b.sn_bits@ =~= data@.subrange(4, 16));
    Ok(b)
}

/// Whether `b` holds the serial-number bits in the 16 bytes `d`.
pub open spec fn rma_bits_match(b: RmaSnBits, d: Seq<u8>) -> bool {
    &&& d.len() == 16
    &&& b.sn_data_version@ == d.subrange(0, 3)
    &&& b.rma_status == d[3]
    &&& b.sn_bits@ == d.subrange(4, 16)
    &&& b.standalone_rma_sn_bits is None
}

/// What the serial-number bits are, given the read of their NV index: an
/// error of the read is passed on unchanged, data of another length than 16
/// bytes is an `InternalError`.
pub open spec fn rma_outcome(read: Result<Seq<u8>, HwsecError>, r: Result<RmaSnBits, HwsecError>) -> bool {
    match read {
        Err(e) => r == Err::<RmaSnBits, HwsecError>(e),
        Ok(d) => if d.len() == 16 {
            r matches Ok(b) && rma_bits_match(b, d)
        } else {
            r == Err::<RmaSnBits, HwsecError>(HwsecError::InternalError)
        },
    }
}

/// The serial-number bits from the read of their NV index.
pub fn rma_sn_bits_from_read(read: Result<Vec<u8>, HwsecError>) -> (r: Result<RmaSnBits, HwsecError>)
    ensures
        rma_outcome(
            match read {
                Ok(v) => Ok(v@),
                Err(e) => Err(e),
            },
            r,
        ),
{
    match read {
        Ok(data) => rma_sn_bits_from(data.as_slice()),
        Err(e) => Err(e),
    }
}

/// Reads the RMA serial-number bits: one NV_Read of 16 bytes at
/// `READ_SN_BITS_INDEX`, whose outcome `rma_sn_bits_from_read` turns into the
/// bits.
pub fn cr50_read_rma_sn_bits<C: Context>(ctx: &mut C) -> (r: Result<RmaSnBits, HwsecError>)
    ensures
        exists|out: Result<CommandOutput, HwsecError>| rma_outcome(#[trigger] nv_read_outcome(out), r),
{
    let read = nv_read(ctx, READ_SN_BITS_INDEX, READ_SN_BITS_LENGTH);
    let ghost out = choose|out: Result<CommandOutput, HwsecError>| same_read(read, nv_read_outcome(out));
    let r = rma_sn_bits_from_read(read);
    assert(rma_outcome(nv_read_outcome(out), r));
    r
}

} // verus!
