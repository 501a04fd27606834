use kafka_shell::{
    broker_line, creation_report, decimal_text, farewell_line, help_lines, render_brokers,
    render_topics, topic_line, BrokerInfo, ClusterMetadata, TopicInfo, TopicOutcome,
};

fn snapshot() -> ClusterMetadata {
    ClusterMetadata {
        brokers: vec![BrokerInfo { id: 1, host: "a".to_string(), port: 9092 }],
        topics: vec![TopicInfo { name: "orders".to_string(), partitions: 3 }],
    }
}

#[test]
fn list_brokers_prints_one_line_per_broker() {
    let lines = render_brokers(&snapshot());
    assert_eq!(lines, vec!["Brokers:".to_string(), "  Id: 1  Host: a:9092  ".to_string()]);
}

#[test]
fn list_topics_prints_name_and_partition_count() {
    let lines = render_topics(&snapshot());
    assert_eq!(lines, vec!["Topics:".to_string(), "  Name: orders  Partitions: 3".to_string()]);
}

#[test]
fn empty_snapshot_prints_headings_only() {
    let m = ClusterMetadata { brokers: Vec::new(), topics: Vec::new() };
    assert_eq!(render_brokers(&m), vec!["Brokers:".to_string()]);
    assert_eq!(render_topics(&m), vec!["Topics:".to_string()]);
}

#[test]
fn lines_show_negative_and_large_numbers() {
    let b = BrokerInfo { id: -7, host: "kafka-0.local".to_string(), port: 0 };
    assert_eq!(broker_line(&b), "  Id: -7  Host: kafka-0.local:0  ");
    let t = TopicInfo { name: "t".to_string(), partitions: 1234567890 };
    assert_eq!(topic_line(&t), "  Name: t  Partitions: 1234567890");
}

#[test]
fn decimal_text_matches_std() {
    for n in [0i64, 5, 9, 10, 99, 100, -1, -10, 9092, i64::MAX, i64::MIN] {
        assert_eq!(decimal_text(n), n.to_string());
    }
}

#[test]
fn help_lists_every_command() {
    assert_eq!(
        help_lines(),
        vec![
            "Type commands : ",
            "lb : to list brokers",
            "lt : to list topics",
            "ct : to create topic",
            "help | ? : to display help",
            "exit : quit shell",
        ]
    );
}

#[test]
fn farewell_waves() {
    assert_eq!(farewell_line(), "Goodbye \u{1F44B} !");
}

#[test]
fn creation_report_distinguishes_outcomes() {
    let ok = Ok(vec![
        TopicOutcome::Created("orders".to_string()),
        TopicOutcome::Failed("dup".to_string(), "TopicAlreadyExists".to_string()),
    ]);
    assert_eq!(
        creation_report(&ok),
        vec!["Topic created : orders", "Topic not created : dup (TopicAlreadyExists)"]
    );
    let rejected: Result<Vec<TopicOutcome>, String> = Err("timed out".to_string());
    assert_eq!(creation_report(&rejected), vec!["Topic creation rejected : timed out"]);
}
