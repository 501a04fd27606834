use kafka_shell::{count_from_word, parse_count, topic_request, RequestError};

#[test]
fn blank_counts_default_to_one() {
    let req = topic_request("orders", "", "").unwrap();
    assert_eq!(req.name, "orders");
    assert_eq!(req.partitions, 1);
    assert_eq!(req.replication, 1);
    assert_eq!(req.creation_line(), "Create topic orders 1:1");
}

#[test]
fn given_counts_are_used() {
    let req = topic_request("events", " 12 ", "3").unwrap();
    assert_eq!((req.partitions, req.replication), (12, 3));
    assert_eq!(req.creation_line(), "Create topic events 12:3");
}

#[test]
fn request_errors() {
    assert_eq!(topic_request("", "1", "1").err(), Some(RequestError::EmptyName));
    assert_eq!(topic_request("t", "0", "1").err(), Some(RequestError::InvalidPartitions));
    assert_eq!(topic_request("t", "x", "bad").err(), Some(RequestError::InvalidPartitions));
    assert_eq!(topic_request("t", "2", "-1").err(), Some(RequestError::InvalidReplication));
}

#[test]
fn counts_parse_as_positive_i32() {
    assert_eq!(count_from_word(""), Some(1));
    assert_eq!(count_from_word("7"), Some(7));
    assert_eq!(count_from_word("007"), Some(7));
    assert_eq!(count_from_word("2147483647"), Some(i32::MAX));
    assert_eq!(count_from_word("2147483648"), None);
    assert_eq!(count_from_word("99999999999999999999"), None);
    assert_eq!(count_from_word("0"), None);
    assert_eq!(count_from_word("+3"), None);
    assert_eq!(count_from_word("3a"), None);
    assert_eq!(count_from_word(" 3"), None);
    assert_eq!(parse_count(" 3\n"), Some(3));
    assert_eq!(parse_count("   "), Some(1));
}
