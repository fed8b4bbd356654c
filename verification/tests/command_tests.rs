use session_hub::command::{
    classify, dispatch, random_reply, time_reply, unknown_reply, Command, RANDOM_HIGH, RANDOM_LOW,
};

#[test]
fn classify_recognises_the_three_commands() {
    assert_eq!(classify("ping"), Command::Ping);
    assert_eq!(classify("cmd:get_time"), Command::GetTime);
    assert_eq!(classify("cmd:random_num"), Command::RandomNum);
}

#[test]
fn classify_is_exact() {
    assert_eq!(classify("Ping"), Command::Unknown);
    assert_eq!(classify("ping "), Command::Unknown);
    assert_eq!(classify(" cmd:get_time"), Command::Unknown);
    assert_eq!(classify("cmd:random_nu"), Command::Unknown);
    assert_eq!(classify("cmd:random_numb"), Command::Unknown);
    assert_eq!(classify(""), Command::Unknown);
}

#[test]
fn ping_gets_no_response() {
    assert_eq!(dispatch("ping"), None);
}

#[test]
fn unknown_text_gets_the_fallback() {
    let samples = [
        "hello",
        "",
        "name:Alice",
        "cmd:",
        "cmd:get_time ",
        "PING",
        "p\u{ef}ng",
        "cmd:random_num\n",
        "\u{1f600}",
    ];
    for text in samples {
        assert_eq!(dispatch(text), Some(String::from("Command not recognized")));
    }
    assert_eq!(unknown_reply(), "Command not recognized");
}

#[test]
fn replies_are_label_then_value() {
    assert_eq!(
        time_reply("2024-05-06 07:08:09.123456789 UTC"),
        "Server Time: 2024-05-06 07:08:09.123456789 UTC"
    );
    assert_eq!(time_reply(""), "Server Time: ");
    assert_eq!(random_reply(1), "Random Number: 1");
    assert_eq!(random_reply(42), "Random Number: 42");
    assert_eq!(random_reply(100), "Random Number: 100");
    assert_eq!(random_reply(0), "Random Number: 0");
    assert_eq!(random_reply(4294967295), "Random Number: 4294967295");
}

#[test]
fn get_time_reports_the_current_utc_time() {
    let before = chrono::Utc::now().naive_utc();
    let reply = dispatch("cmd:get_time").expect("a response is due");
    let after = chrono::Utc::now().naive_utc();

    let stamp = reply.strip_prefix("Server Time: ").expect("the label comes first");
    let written = stamp.strip_suffix(" UTC").expect("the zone comes last");
    let shown = chrono::NaiveDateTime::parse_from_str(written, "%Y-%m-%d %H:%M:%S%.f")
        .expect("the timestamp can be read back");
    assert!(before <= shown);
    assert!(shown <= after);
    assert!((after - shown).num_seconds() < 5);
}

#[test]
fn random_num_stays_in_range_and_varies() {
    assert_eq!(RANDOM_LOW, 1);
    assert_eq!(RANDOM_HIGH, 100);
    let mut seen = [0u32; 101];
    for _ in 0..1000 {
        let reply = dispatch("cmd:random_num").expect("a response is due");
        let digits = reply.strip_prefix("Random Number: ").expect("the label comes first");
        assert!(!digits.is_empty() && digits.len() <= 3);
        assert!(digits.chars().all(|c| c.is_ascii_digit()));
        let n: usize = digits.parse().expect("a number");
        assert!(n >= 1 && n <= 100);
        assert_eq!(random_reply(n as u32), reply);
        seen[n] += 1;
    }
    let distinct = seen.iter().filter(|&&count| count > 0).count();
    assert!(distinct > 20);
    assert!(seen.iter().all(|&count| count < 500));
}
