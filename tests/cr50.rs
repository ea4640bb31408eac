use std::collections::VecDeque;

use hiberman::cr50::cr50_read_rma_sn_bits;
use hiberman::cr50::nv_read_args;
use hiberman::cr50::nv_read_command;
use hiberman::cr50::nv_read_result;
use hiberman::cr50::rma_sn_bits_from_read;
use hiberman::cr50::parse_nv_read_response;
use hiberman::cr50::rma_sn_bits_from;
use hiberman::cr50::trimmed_length;
use hiberman::cr50::CommandOutput;
use hiberman::cr50::Context;
use hiberman::cr50::HwsecError;
use hiberman::cr50::RmaSnBits;

struct Interaction {
    program: String,
    args: Vec<String>,
    status: i32,
    stdout: String,
}

struct MockCommandRunner {
    trunksd_running: bool,
    interactions: VecDeque<Interaction>,
}

impl MockCommandRunner {
    fn set_trunksd_running(&mut self, running: bool) {
        self.trunksd_running = running;
    }

    fn add_tpm_interaction(
        &mut self,
        program: &str,
        flags: Vec<&str>,
        tpm_cmd: Vec<&str>,
        status: i32,
        stdout: &str,
        _stderr: &str,
    ) {
        let mut args: Vec<String> = flags.iter().map(|f| f.to_string()).collect();
        args.push(tpm_cmd.concat().to_lowercase());
        self.interactions.push_back(Interaction {
            program: program.to_string(),
            args,
            status,
            stdout: stdout.to_string(),
        });
    }
}

struct MockContext {
    runner: MockCommandRunner,
}

impl MockContext {
    fn new() -> Self {
        MockContext {
            runner: MockCommandRunner {
                trunksd_running: false,
                interactions: VecDeque::new(),
            },
        }
    }

    fn cmd_runner(&mut self) -> &mut MockCommandRunner {
        &mut self.runner
    }
}

impl Context for MockContext {
    fn run_command(
        &mut self,
        program: &str,
        args: &Vec<String>,
    ) -> Result<CommandOutput, HwsecError> {
        assert!(self.runner.trunksd_running);
        let next = self
            .runner
            .interactions
            .pop_front()
            .expect("unexpected command");
        assert_eq!(next.program, program);
        assert_eq!(&next.args, args);
        Ok(CommandOutput {
            status: next.status,
            stdout: next.stdout.into_bytes(),
        })
    }
}

fn split_into_hex_strtok(hex_code: &str) -> Vec<&str> {
    // e.g. "12 34 56 78" -> ["12", "34", "56", "78"]
    hex_code.split(' ').collect::<Vec<&str>>()
}

#[test]
fn test_cr50_read_rma_sn_bits_success() {
    let mut mock_ctx = MockContext::new();

    mock_ctx.cmd_runner().set_trunksd_running(true);
    mock_ctx.cmd_runner().add_tpm_interaction(
        "trunks_send",
        vec!["--raw"],
        split_into_hex_strtok(
            "80 02 00 00 00 23 00 00 \
            01 4e 01 3f ff 01 01 3f \
            ff 01 00 00 00 09 40 00 \
            00 09 00 00 00 00 00 00 \
            10 00 00",
        ),
        0,
        "800200000025000000000000001200100FFFFFFF877F50D208EC89E9C1691F540000010000",
        "",
    );

    let rma_sn_bits = cr50_read_rma_sn_bits(&mut mock_ctx);
    assert_eq!(
        rma_sn_bits,
        Ok(RmaSnBits {
            sn_data_version: [0x0f, 0xff, 0xff],
            rma_status: 0xff,
            sn_bits: [0x87, 0x7f, 0x50, 0xd2, 0x08, 0xec, 0x89, 0xe9, 0xc1, 0x69, 0x1f, 0x54],
            standalone_rma_sn_bits: None
        })
    );
}

#[test]
fn test_cr50_read_rma_sn_bits_nv_read_malfunction() {
    let mut mock_ctx = MockContext::new();

    mock_ctx.cmd_runner().set_trunksd_running(true);
    mock_ctx.cmd_runner().add_tpm_interaction(
        "trunks_send",
        vec!["--raw"],
        split_into_hex_strtok(
            "80 02 00 00 00 23 00 00 \
            01 4e 01 3f ff 01 01 3f \
            ff 01 00 00 00 09 40 00 \
            00 09 00 00 00 00 00 00 \
            10 00 00",
        ),
        1,
        "",
        "",
    );

    let rma_sn_bits = cr50_read_rma_sn_bits(&mut mock_ctx);
    assert_eq!(rma_sn_bits, Err(HwsecError::CommandRunnerError));
}

#[test]
fn cr50_output_with_trailing_newline_is_read() {
    let mut mock_ctx = MockContext::new();
    mock_ctx.cmd_runner().set_trunksd_running(true);
    mock_ctx.cmd_runner().add_tpm_interaction(
        "trunks_send",
        vec!["--raw"],
        split_into_hex_strtok(
            "80 02 00 00 00 23 00 00 01 4e 01 3f ff 01 01 3f ff 01 00 00 00 09 40 00 00 09 00 00 00 00 00 00 10 00 00",
        ),
        0,
        "800200000025000000000000001200100102030405060708090a0b0c0d0e0f100000010000\n",
        "",
    );
    let bits = cr50_read_rma_sn_bits(&mut mock_ctx).unwrap();
    assert_eq!(bits.sn_data_version, [0x01, 0x02, 0x03]);
    assert_eq!(bits.rma_status, 0x04);
    assert_eq!(bits.sn_bits[11], 0x10);
}

#[test]
fn cr50_non_hex_output_is_bad_format() {
    let mut mock_ctx = MockContext::new();
    mock_ctx.cmd_runner().set_trunksd_running(true);
    mock_ctx.cmd_runner().add_tpm_interaction(
        "trunks_send",
        vec!["--raw"],
        split_into_hex_strtok(
            "80 02 00 00 00 23 00 00 01 4e 01 3f ff 01 01 3f ff 01 00 00 00 09 40 00 00 09 00 00 00 00 00 00 10 00 00",
        ),
        0,
        "8002zz",
        "",
    );
    assert_eq!(
        cr50_read_rma_sn_bits(&mut mock_ctx),
        Err(HwsecError::Tpm2ResponseBadFormatError)
    );
}

#[test]
fn nv_read_command_layout() {
    let cmd = nv_read_command(0x013fff04, 4);
    assert_eq!(cmd.len(), 35);
    assert_eq!(&cmd[10..18], &[0x01, 0x3f, 0xff, 0x04, 0x01, 0x3f, 0xff, 0x04]);
    assert_eq!(&cmd[31..35], &[0x00, 0x04, 0x00, 0x00]);
}

#[test]
fn nv_read_response_errors() {
    assert_eq!(
        parse_nv_read_response(&[0x80, 0x02, 0x00]),
        Err(HwsecError::Tpm2ResponseBadFormatError)
    );
    let rc = [0x80, 0x01, 0x00, 0x00, 0x00, 0x0a, 0x00, 0x00, 0x01, 0x8b];
    assert_eq!(parse_nv_read_response(&rc), Err(HwsecError::Tpm2Error(0x18b)));
    let short = [
        0x80, 0x02, 0x00, 0x00, 0x00, 0x12, 0x00, 0x00, 0x00, 0x00, 0x00, 0x00, 0x00, 0x04, 0x00,
        0x08, 0x01, 0x02,
    ];
    assert_eq!(
        parse_nv_read_response(&short),
        Err(HwsecError::Tpm2ResponseBadFormatError)
    );
    let ok = [
        0x80, 0x02, 0x00, 0x00, 0x00, 0x12, 0x00, 0x00, 0x00, 0x00, 0x00, 0x00, 0x00, 0x04, 0x00,
        0x02, 0xab, 0xcd,
    ];
    assert_eq!(parse_nv_read_response(&ok), Ok(vec![0xab, 0xcd]));
}

#[test]
fn rma_sn_bits_need_sixteen_bytes() {
    assert_eq!(rma_sn_bits_from(&[0u8; 15]), Err(HwsecError::InternalError));
    assert!(rma_sn_bits_from(&[0u8; 16]).is_ok());
}

#[test]
fn trailing_whitespace_is_trimmed() {
    assert_eq!(trimmed_length(b"ab \r\n"), 2);
    assert_eq!(trimmed_length(b""), 0);
    assert_eq!(trimmed_length(b" a"), 2);
}

#[test]
fn nv_read_outcomes() {
    assert_eq!(
        nv_read_result(Err(HwsecError::InternalError)),
        Err(HwsecError::CommandRunnerError)
    );
    assert_eq!(
        nv_read_result(Ok(CommandOutput {
            status: 2,
            stdout: b"8002".to_vec()
        })),
        Err(HwsecError::CommandRunnerError)
    );
    assert_eq!(
        nv_read_result(Ok(CommandOutput {
            status: 0,
            stdout: b"800".to_vec()
        })),
        Err(HwsecError::Tpm2ResponseBadFormatError)
    );
    assert_eq!(
        nv_read_result(Ok(CommandOutput {
            status: 0,
            stdout: b"800200000012000000000000000400 02ABcd\n".to_vec()
        })),
        Err(HwsecError::Tpm2ResponseBadFormatError)
    );
    assert_eq!(
        nv_read_result(Ok(CommandOutput {
            status: 0,
            stdout: b"80020000001200000000000000040002ABcd \n".to_vec()
        })),
        Ok(vec![0xab, 0xcd])
    );
}

#[test]
fn nv_read_arguments() {
    let args = nv_read_args(0x013fff01, 16);
    assert_eq!(
        args,
        vec![
            "--raw".to_string(),
            "8002000000230000014e013fff01013fff010000000940000009000000000000100000".to_string()
        ]
    );
}

#[test]
fn rma_read_errors_pass_on() {
    assert_eq!(
        rma_sn_bits_from_read(Err(HwsecError::Tpm2Error(7))),
        Err(HwsecError::Tpm2Error(7))
    );
    assert_eq!(
        rma_sn_bits_from_read(Ok(vec![1, 2, 3])),
        Err(HwsecError::InternalError)
    );
    let bits = rma_sn_bits_from_read(Ok((0u8..16).collect())).unwrap();
    assert_eq!(bits.sn_data_version, [0, 1, 2]);
    assert_eq!(bits.rma_status, 3);
    assert_eq!(bits.standalone_rma_sn_bits, None);
}
