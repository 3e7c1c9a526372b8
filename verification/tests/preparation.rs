//! Tests for command-line buffer preparation and error reporting values.

use procrun::error::Operation;
use procrun::error::OperationError;
use procrun::cmdline::prepare_command_buffer;

#[test]
fn buffer_is_command_plus_terminator() {
    let cmd = "exit_with_code.exe 0";
    let buf = prepare_command_buffer(cmd.as_bytes());
    assert_eq!(buf.len(), cmd.len() + 1);
    assert_eq!(&buf[..cmd.len()], cmd.as_bytes());
    assert_eq!(buf[cmd.len()], 0);
}

#[test]
fn empty_command_is_just_the_terminator() {
    let buf = prepare_command_buffer(b"");
    assert_eq!(buf, vec![0u8]);
}

#[test]
fn command_longer_than_a_shell_ceiling_is_prepared_whole() {
    let mut cmd: Vec<u8> = b"exit_with_code.exe ".to_vec();
    while cmd.len() <= 8192 {
        cmd.push(b'0');
    }
    assert!(cmd.len() > 8192);
    let buf = prepare_command_buffer(&cmd);
    assert_eq!(buf.len(), cmd.len() + 1);
    assert_eq!(&buf[..cmd.len()], &cmd[..]);
    assert_eq!(buf[cmd.len()], 0);
}

#[test]
fn embedded_terminator_is_kept_in_the_buffer() {
    let buf = prepare_command_buffer(b"a\0b");
    assert_eq!(buf, vec![b'a', 0, b'b', 0]);
}

#[test]
fn operation_names() {
    assert_eq!(Operation::ProcessCreate.name(), "process-create");
    assert_eq!(Operation::Wait.name(), "wait");
    assert_eq!(Operation::StatusRead.name(), "status-read");
}

#[test]
fn operation_error_carries_operation_and_code() {
    let e = OperationError::new(Operation::ProcessCreate, 5);
    assert_eq!(e.operation, Operation::ProcessCreate);
    assert_eq!(e.code, 5);
    assert_eq!(e.operation.name(), "process-create");
}
