use kagu::{drain_back, drain_front, push_decimal, socket_address, ConnectFailure};
use kagu::{Client, CHANNEL_CAPACITY, CONNECT_FAILURE_EXIT_CODE, MAX_MESSAGE_BYTES};
use std::collections::VecDeque;

fn decimal(n: u64) -> String {
    let mut text = String::from("#");
    push_decimal(&mut text, n);
    text
}

#[test]
fn numbers_are_written_in_decimal() {
    assert_eq!(decimal(0), "#0");
    assert_eq!(decimal(9), "#9");
    assert_eq!(decimal(10), "#10");
    assert_eq!(decimal(1234567890), "#1234567890");
    assert_eq!(decimal(u64::MAX), "#18446744073709551615");
}

#[test]
fn every_port_reads_back() {
    for port in 0..=u16::MAX {
        let address = socket_address(String::from("::1"), port);
        let (host, digits) = address.rsplit_once(':').unwrap();
        assert_eq!(host, "::1");
        assert_eq!(digits.parse::<u16>(), Ok(port));
    }
}

#[test]
fn address_is_host_and_port() {
    assert_eq!(socket_address(String::from("127.0.0.1"), 8080), "127.0.0.1:8080");
    let client = Client::new(String::from("10.0.0.7"), 0, String::from("ann"));
    assert_eq!(client.address(), "10.0.0.7:0");
}

#[test]
fn queues_drain_in_order_and_stacks_backwards() {
    let mut queue: VecDeque<u32> = VecDeque::from(vec![1, 2, 3]);
    queue.push_front(0);
    assert_eq!(drain_front(&mut queue), vec![0, 1, 2, 3]);
    assert!(queue.is_empty());
    assert_eq!(drain_front(&mut queue), Vec::<u32>::new());
    let mut stack: Vec<u32> = vec![1, 2, 3];
    assert_eq!(drain_back(&mut stack), vec![3, 2, 1]);
    assert!(stack.is_empty());
    assert_eq!(drain_back(&mut stack), Vec::<u32>::new());
}

#[test]
fn failed_connections_are_reported() {
    assert_eq!(
        ConnectFailure::TimedOut.report(),
        "[client] Connection timed out. Is the server IP and port correct?"
    );
    assert_eq!(
        ConnectFailure::Other(String::from("aborted by peer")).report(),
        "[client] Error while connecting: aborted by peer"
    );
    assert_eq!(CONNECT_FAILURE_EXIT_CODE, 1);
}

#[test]
fn sizes_are_fixed() {
    assert_eq!(MAX_MESSAGE_BYTES, 12000000);
    assert_eq!(CHANNEL_CAPACITY, 1000);
}
