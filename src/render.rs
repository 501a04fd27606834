use vstd::prelude::*;

use crate::text::{decimal, push_decimal, push_digits};

verus! {

/// A broker of the cluster, as a metadata snapshot describes it.
pub struct BrokerInfo {
    pub id: i32,
    pub host: String,
    pub port: i32,
}

/// A topic of the cluster, with the number of its partitions.
pub struct TopicInfo {
    pub name: String,
    pub partitions: usize,
}

/// A point-in-time view of the cluster's brokers and topics.
pub struct ClusterMetadata {
    pub brokers: Vec<BrokerInfo>,
    pub topics: Vec<TopicInfo>,
}

/// What the cluster answered for one topic of a creation request.
pub enum TopicOutcome {
    Created(String),
    Failed(String, String),
}

pub open spec fn broker_line_text(b: BrokerInfo) -> Seq<char> {
    "  Id: "@ + decimal(b.id as int) + "  Host: "@ + b.host@ + ":"@ + decimal(b.port as int)
        + "  "@
}

pub open spec fn topic_line_text(t: TopicInfo) -> Seq<char> {
    "  Name: "@ + t.name@ + "  Partitions: "@ + decimal(t.partitions as int)
}

pub open spec fn outcome_line_text(o: TopicOutcome) -> Seq<char> {
    match o {
        TopicOutcome::Created(name) => "Topic created : "@ + name@,
        TopicOutcome::Failed(name, why) => "Topic not created : "@ + name@ + " ("@ + why@ + ")"@,
    }
}

pub open spec fn rejection_line_text(why: Seq<char>) -> Seq<char> {
    "Topic creation rejected : "@ + why
}

/// The line that shows one broker: its id, host and port.
pub fn broker_line(b: &BrokerInfo) -> (r: String)
    ensures
        r@ == broker_line_text(*b),
{
    let mut s = String::from_str("  Id: ");
    push_decimal(&mut s, b.id as i64);
    s.append("  Host: ");
    s.append(b.host.as_str());
    s.append(":");
    push_decimal(&mut s, b.port as i64);
    s.append("  ");
    assert(s@ =~= broker_line_text(*b));
    s
}

/// The line that shows one topic: its name and partition count.
pub fn topic_line(t: &TopicInfo) -> (r: String)
    ensures
        r@ == topic_line_text(*t),
{
    let mut s = String::from_str("  Name: ");
    s.append(t.name.as_str());
    s.append("  Partitions: ");
    push_digits(&mut s, t.partitions as u64);
    assert(s@ =~= topic_line_text(*t));
    s
}

/// The listing of the brokers: a heading, then one line per broker, in the
/// snapshot's order.
pub fn render_brokers(m: &ClusterMetadata) -> (r: Vec<String>)
    ensures
        r@.len() == m.brokers@.len() + 1,
        r@[0]@ == "Brokers:"@,
        forall|i: int| 0 <= i < m.brokers@.len() ==> #[trigger] r@[i + 1]@ == broker_line_text(
            m.brokers@[i],
        ),
{
    let mut r: Vec<String> = Vec::new();
    r.push(String::from_str("Brokers:"));
    let mut i: usize = 0;
    while i < m.brokers.len()
        invariant
            i <= m.brokers@.len(),
            r@.len() == i + 1,
            r@[0]@ == "Brokers:"@,
            forall|j: int| 0 <= j < i ==> #[trigger] r@[j + 1]@ == broker_line_text(m.brokers@[j]),
        decreases m.brokers@.len() - i,
    {
        r.push(broker_line(&m.brokers[i]));
        i = i + 1;
    }
    r
}

/// The listing of the topics: a heading, then one line per topic, in the
/// snapshot's order.
pub fn render_topics(m: &ClusterMetadata) -> (r: Vec<String>)
    ensures
        r@.len() == m.topics@.len() + 1,
        r@[0]@ == "Topics:"@,
        forall|i: int| 0 <= i < m.topics@.len() ==> #[trigger] r@[i + 1]@ == topic_line_text(
            m.topics@[i],
        ),
{
    let mut r: Vec<String> = Vec::new();
    r.push(String::from_str("Topics:"));
    let mut i: usize = 0;
    while i < m.topics.len()
        invariant
            i <= m.topics@.len(),
            r@.len() == i + 1,
            r@[0]@ == "Topics:"@,
            forall|j: int| 0 <= j < i ==> #[trigger] r@[j + 1]@ == topic_line_text(m.topics@[j]),
        decreases m.topics@.len() - i,
    {
        r.push(topic_line(&m.topics[i]));
        i = i + 1;
    }
    r
}

/// The line that reports one topic's outcome.
pub fn outcome_line(o: &TopicOutcome) -> (r: String)
    ensures
        r@ == outcome_line_text(*o),
{
    match o {
        TopicOutcome::Created(name) => {
            let mut s = String::from_str("Topic created : ");
            s.append(name.as_str());
            s
        },
        TopicOutcome::Failed(name, why) => {
            let mut s = String::from_str("Topic not created : ");
            s.append(name.as_str());
            s.append(" (");
            s.append(why.as_str());
            s.append(")");
            assert(s@ =~= outcome_line_text(*o));
            s
        },
    }
}

/// The report of a creation request: one line when the whole request was
/// rejected, else one line per topic outcome, in order.
pub fn creation_report(result: &Result<Vec<TopicOutcome>, String>) -> (r: Vec<String>)
    ensures
        result matches Err(why) ==> r@.len() == 1 && r@[0]@ == rejection_line_text(why@),
        result matches Ok(outs) ==> {
            &&& r@.len() == outs@.len()
            &&& forall|i: int| 0 <= i < outs@.len() ==> #[trigger] r@[i]@ == outcome_line_text(
                outs@[i],
            )
        },
{
    match result {
        Err(why) => {
            let mut s = String::from_str("Topic creation rejected : ");
            s.append(why.as_str());
            let mut r: Vec<String> = Vec::new();
            r.push(s);
            r
        },
        Ok(outs) => {
            let mut r: Vec<String> = Vec::new();
            let mut i: usize = 0;
            while i < outs.len()
                invariant
                    i <= outs@.len(),
                    r@.len() == i,
                    forall|j: int| 0 <= j < i ==> #[trigger] r@[j]@ == outcome_line_text(outs@[j]),
                decreases outs@.len() - i,
            {
                r.push(outcome_line(&outs[i]));
                i = i + 1;
            }
            r
        },
    }
}


/// The help text: a heading, then one line per command.
pub open spec fn help_text() -> Seq<Seq<char>> {
    seq![
        "Type commands : "@,
        "lb : to list brokers"@,
        "lt : to list topics"@,
        "ct : to create topic"@,
        "help | ? : to display help"@,
        "exit : quit shell"@,
    ]
}

/// The lines of the help text.
pub fn help_lines() -> (r: Vec<String>)
    ensures
        r.deep_view() == help_text(),
{
    let mut r: Vec<String> = Vec::new();
    r.push(String::from_str("Type commands : "));
    r.push(String::from_str("lb : to list brokers"));
    r.push(String::from_str("lt : to list topics"));
    r.push(String::from_str("ct : to create topic"));
    r.push(String::from_str("help | ? : to display help"));
    r.push(String::from_str("exit : quit shell"));
    assert(r.deep_view() =~= help_text());
    r
}

/// The line printed when the shell ends.
pub fn farewell_line() -> (r: String)
    ensures
        r@ == "Goodbye \u{1F44B} !"@,
{
    String::from_str("Goodbye \u{1F44B} !")
}

} // verus!
