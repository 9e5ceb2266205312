use thetadata_terminal_manager::channel::LogChannel;

#[test]
fn new_channel_is_empty() {
    let mut channel = LogChannel::new();
    assert_eq!(channel.drain(), Vec::<String>::new());
}

#[test]
fn lines_come_out_in_the_order_they_went_in() {
    let mut channel = LogChannel::new();
    channel.send("one".to_string());
    channel.send("two".to_string());
    channel.send("".to_string());
    channel.send("three".to_string());
    assert_eq!(channel.drain(), vec!["one", "two", "", "three"]);
    assert_eq!(channel.drain(), Vec::<String>::new());
    channel.send("four".to_string());
    assert_eq!(channel.drain(), vec!["four"]);
}

#[test]
fn slow_consumer_loses_nothing() {
    // The tick stays away while the readers keep sending.
    let mut channel = LogChannel::new();
    for i in 0..100_000u32 {
        channel.send(format!("line {i}"));
    }
    let lines = channel.drain();
    assert_eq!(lines.len(), 100_000);
    assert_eq!(lines[0], "line 0");
    assert_eq!(lines[99_999], "line 99999");
    assert!(lines.windows(2).all(|pair| {
        let a: u32 = pair[0][5..].parse().unwrap();
        let b: u32 = pair[1][5..].parse().unwrap();
        a + 1 == b
    }));
}
