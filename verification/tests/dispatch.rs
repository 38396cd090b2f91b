use redis_logger::fill_appends;
use redis_logger::fill_publishes;

fn cmd_args(cmd: &redis::Cmd) -> Vec<Vec<u8>> {
    cmd.args_iter()
        .map(|arg| match arg {
            redis::Arg::Simple(bytes) => bytes.to_vec(),
            _ => Vec::new(),
        })
        .collect()
}

#[test]
fn fill_publishes_adds_one_publish_per_channel_with_the_same_payload() {
    let mut pipeline = redis::pipe();
    let channels = vec!["channel1".to_string(), "channel2".to_string()];
    let payload = b"payload".to_vec();

    fill_publishes(&mut pipeline, &channels, &payload);

    let commands: Vec<&redis::Cmd> = pipeline.cmd_iter().collect();
    assert_eq!(commands.len(), 2);
    assert_eq!(
        cmd_args(commands[0]),
        vec![b"PUBLISH".to_vec(), b"channel1".to_vec(), b"payload".to_vec()]
    );
    assert_eq!(
        cmd_args(commands[1]),
        vec![b"PUBLISH".to_vec(), b"channel2".to_vec(), b"payload".to_vec()]
    );
}

#[test]
fn fill_appends_adds_one_xadd_per_stream_with_the_same_fields() {
    let mut pipeline = redis::pipe();
    let streams = vec!["stream1".to_string(), "stream2".to_string()];
    let fields = vec![
        ("args".to_string(), b"hello".to_vec()),
        ("level".to_string(), b"INFO".to_vec()),
    ];

    fill_appends(&mut pipeline, &streams, &fields);

    let commands: Vec<&redis::Cmd> = pipeline.cmd_iter().collect();
    assert_eq!(commands.len(), 2);
    let expected_tail = vec![
        b"*".to_vec(),
        b"args".to_vec(),
        b"hello".to_vec(),
        b"level".to_vec(),
        b"INFO".to_vec(),
    ];
    let mut expected_first = vec![b"XADD".to_vec(), b"stream1".to_vec()];
    expected_first.extend(expected_tail.clone());
    assert_eq!(cmd_args(commands[0]), expected_first);
    let mut expected_second = vec![b"XADD".to_vec(), b"stream2".to_vec()];
    expected_second.extend(expected_tail);
    assert_eq!(cmd_args(commands[1]), expected_second);
}

#[test]
fn one_batch_holds_every_publish_and_every_append() {
    let mut pipeline = redis::pipe();
    let channels = vec!["c1".to_string(), "c2".to_string(), "c3".to_string()];
    let payload = b"p".to_vec();
    let streams = vec!["s1".to_string(), "s2".to_string()];
    let fields = vec![("k".to_string(), b"v".to_vec())];

    fill_publishes(&mut pipeline, &channels, &payload);
    fill_appends(&mut pipeline, &streams, &fields);

    let commands: Vec<&redis::Cmd> = pipeline.cmd_iter().collect();
    assert_eq!(commands.len(), channels.len() + streams.len());
    for (i, _) in channels.iter().enumerate() {
        assert_eq!(cmd_args(commands[i])[0], b"PUBLISH".to_vec());
    }
    for (j, _) in streams.iter().enumerate() {
        assert_eq!(cmd_args(commands[channels.len() + j])[0], b"XADD".to_vec());
    }
}

#[test]
fn filling_no_channels_adds_no_command() {
    let mut pipeline = redis::pipe();
    let channels: Vec<String> = Vec::new();
    let payload = b"p".to_vec();

    fill_publishes(&mut pipeline, &channels, &payload);

    assert_eq!(pipeline.cmd_iter().count(), 0);
}
