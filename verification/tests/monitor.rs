use qemu_test_runner::monitor::{
    contains_marker, forwarded_port, parse_port, request, socket, split_fields, ssh_port,
};
use qemu_test_runner::IoKind;

fn lines(text: &str) -> Vec<Vec<u8>> {
    text.split_inclusive('\n')
        .map(|line| line.as_bytes().to_vec())
        .collect()
}

const ANSWER: &str = "QEMU 6.2.0 monitor - type 'help' for more information\r\n\
(qemu) info usernet\r\n\
Hub -1 (#net071):\r\n\
  Protocol[State]    FD  Source Address  Port   Dest. Address  Port RecvQ SendQ\r\n\
  TCP[HOST_FORWARD]  13               *  38251       10.0.2.15    22     0     0\r\n\
(qemu) \r\n";

#[test]
fn port_of_the_forward_to_ssh() {
    assert_eq!(ssh_port(&lines(ANSWER)).unwrap(), 38251);
}

#[test]
fn a_forward_line() {
    assert_eq!(
        forwarded_port(b"  TCP[HOST_FORWARD]  13   *  38251   10.0.2.15    22     0     0\n"),
        Some(38251)
    );
    assert_eq!(forwarded_port(b"HOST_FORWARD a b 1 c 22"), Some(1));
    assert_eq!(forwarded_port(b"xHOST_FORWARDx\ta\x0cb\r+65535 c +22"), Some(65535));
}

#[test]
fn lines_that_are_no_forward_to_ssh() {
    assert_eq!(forwarded_port(b""), None);
    assert_eq!(forwarded_port(b"   \n"), None);
    assert_eq!(forwarded_port(b"TCP[HOST_FORWARD] 13 * 38251 10.0.2.15 80 0 0"), None);
    assert_eq!(forwarded_port(b"TCP[ESTABLISHED] 13 * 38251 10.0.2.15 22 0 0"), None);
    assert_eq!(forwarded_port(b"13 TCP[HOST_FORWARD] * 38251 10.0.2.15 22 0 0"), None);
    assert_eq!(forwarded_port(b"TCP[HOST_FORWARD] 13 * 38251 10.0.2.15"), None);
    assert_eq!(forwarded_port(b"TCP[HOST_FORWARD] 13 * 65536 10.0.2.15 22"), None);
    assert_eq!(forwarded_port(b"TCP[HOST_FORWARD] 13 * port 10.0.2.15 22"), None);
    assert_eq!(forwarded_port(b"TCP[HOST_FORWARD] 13 * -1 10.0.2.15 22"), None);
    assert_eq!(forwarded_port(b"TCP[HOST_FORWARD] 13 * 1 10.0.2.15 22x"), None);
    assert_eq!(forwarded_port(b"TCP[HOST_FORWAR] 13 * 1 10.0.2.15 22"), None);
}

#[test]
fn the_first_forward_counts() {
    let answer = "TCP[HOST_FORWARD] 1 * 1111 10.0.2.15 80\n\
                  TCP[HOST_FORWARD] 2 * 2222 10.0.2.15 22\n\
                  TCP[HOST_FORWARD] 3 * 3333 10.0.2.15 22\n";
    assert_eq!(ssh_port(&lines(answer)).unwrap(), 2222);
}

#[test]
fn no_forward_is_not_found() {
    let error = ssh_port(&lines("(qemu) info usernet\nnothing here\n")).unwrap_err();
    assert_eq!(error.kind, IoKind::NotFound);
    assert_eq!(
        error.message,
        "no SSH port forward found in network info received from the QEMU monitor"
    );
    assert_eq!(ssh_port(&Vec::new()).unwrap_err().kind, IoKind::NotFound);
}

#[test]
fn fields_of_a_line() {
    assert_eq!(
        split_fields(b"  a bc\t\tdef \r\n"),
        vec![b"a".to_vec(), b"bc".to_vec(), b"def".to_vec()]
    );
    assert!(split_fields(b"").is_empty());
    assert!(split_fields(b" \t\r\n\x0c").is_empty());
    assert_eq!(split_fields(b"one"), vec![b"one".to_vec()]);
    assert_eq!(split_fields(b"a\x0bb"), vec![b"a\x0bb".to_vec()]);
}

#[test]
fn ports() {
    assert_eq!(parse_port(b"0"), Some(0));
    assert_eq!(parse_port(b"22"), Some(22));
    assert_eq!(parse_port(b"0022"), Some(22));
    assert_eq!(parse_port(b"+22"), Some(22));
    assert_eq!(parse_port(b"65535"), Some(65535));
    assert_eq!(parse_port(b"65536"), None);
    assert_eq!(parse_port(b"99999999999999999999"), None);
    assert_eq!(parse_port(b""), None);
    assert_eq!(parse_port(b"+"), None);
    assert_eq!(parse_port(b"-22"), None);
    assert_eq!(parse_port(b"++22"), None);
    assert_eq!(parse_port(b"2 2"), None);
    assert_eq!(parse_port(b"22a"), None);
}

#[test]
fn marker_in_a_field() {
    assert!(contains_marker(b"HOST_FORWARD"));
    assert!(contains_marker(b"TCP[HOST_FORWARD]"));
    assert!(contains_marker(b"HOST_FORWARHOST_FORWARD"));
    assert!(!contains_marker(b"HOST_FORWAR"));
    assert!(!contains_marker(b"host_forward"));
    assert!(!contains_marker(b""));
    assert!(!contains_marker(b"HOST_FORWARxD"));
}

#[test]
fn socket_and_request() {
    assert_eq!(socket("/tmp/.tmpAbCdEf"), "/tmp/.tmpAbCdEf/monitor.sock");
    assert_eq!(request(), "info usernet\n");
}
