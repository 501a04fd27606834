use vstd::prelude::*;

use crate::text::{decimal, push_decimal, trim_of, trimmed};

verus! {

/// The count used when the operator leaves a count blank.
pub const DEFAULT_COUNT: i32 = 1;

pub open spec fn is_digit(c: char) -> bool {
    '0' <= c && c <= '9'
}

pub open spec fn all_digits(w: Seq<char>) -> bool {
    forall|i: int| 0 <= i < w.len() ==> #[trigger] is_digit(w[i])
}

/// The number that a run of decimal digits denotes.
pub open spec fn digits_value(w: Seq<char>) -> int
    decreases w.len(),
{
    if w.len() == 0 {
        0
    } else {
        digits_value(w.drop_last()) * 10 + (w.last() as int - '0' as int)
    }
}

/// The count that an answer gives: the default when it is empty, else a
/// positive decimal number that fits in an `i32`; `None` for anything else.
pub open spec fn count_of(w: Seq<char>) -> Option<int> {
    if w.len() == 0 {
        Some(DEFAULT_COUNT as int)
    } else if all_digits(w) && 1 <= digits_value(w) <= i32::MAX {
        Some(digits_value(w))
    } else {
        None
    }
}

proof fn lemma_digits_value_grows(w: Seq<char>, k: int)
    requires
        all_digits(w),
        0 <= k <= w.len(),
    ensures
        0 <= digits_value(w.subrange(0, k)) <= digits_value(w),
    decreases w.len(),
{
    if k == w.len() {
        assert(w.subrange(0, k) =~= w);
        lemma_digits_value_nonneg(w);
    } else {
        let p = w.drop_last();
        assert(all_digits(p)) by {
            assert forall|i: int| 0 <= i < p.len() implies #[trigger] is_digit(p[i]) by {
                assert(is_digit(w[i]));
            }
        }
        lemma_digits_value_grows(p, k);
        assert(p.subrange(0, k) =~= w.subrange(0, k));
        assert(is_digit(w[w.len() - 1]));
    }
}

proof fn lemma_digits_value_nonneg(w: Seq<char>)
    requires
        all_digits(w),
    ensures
        0 <= digits_value(w),
    decreases w.len(),
{
    if w.len() > 0 {
        let p = w.drop_last();
        assert(all_digits(p)) by {
            assert forall|i: int| 0 <= i < p.len() implies #[trigger] is_digit(p[i]) by {
                assert(is_digit(w[i]));
            }
        }
        lemma_digits_value_nonneg(p);
        assert(is_digit(w[w.len() - 1]));
    }
}

/// Reads a count from an answer that is already trimmed.
pub fn count_from_word(w: &str) -> (r: Option<i32>)
    ensures
        r matches Some(v) ==> count_of(w@) == Some(v as int),
        r is None ==> count_of(w@) is None,
{
    let n = w.unicode_len();
    if n == 0 {
        return Some(DEFAULT_COUNT);
    }
    let mut acc: u64 = 0;
    let mut i: usize = 0;
    while i < n
        invariant
            n == w@.len(),
            0 < n,
            i <= n,
            all_digits(w@.subrange(0, i as int)),
            acc as int == digits_value(w@.subrange(0, i as int)),
            acc <= i32::MAX,
        decreases n - i,
    {
        let c = w.get_char(i);
        if !('0' <= c && c <= '9') {
            assert(!all_digits(w@)) by {
                assert(!is_digit(w@[i as int]));
            }
            return None;
        }
        let ghost prev = w@.subrange(0, i as int);
        let ghost next = w@.subrange(0, i + 1);
        assert(next.drop_last() =~= prev);
        assert(all_digits(next)) by {
            assert forall|j: int| 0 <= j < next.len() implies #[trigger] is_digit(next[j]) by {
                if j < i {
                    assert(next[j] == prev[j]);
                }
            }
        }
        acc = acc * 10 + (c as u64 - '0' as u64);
        i = i + 1;
        if acc > i32::MAX as u64 {
            proof {
                if all_digits(w@) {
                    lemma_digits_value_grows(w@, i as int);
                }
            }
            return None;
        }
    }
    assert(w@.subrange(0, n as int) =~= w@);
    if acc == 0 {
        return None;
    }
    Some(acc as i32)
}

/// Reads a count from the operator's answer, surrounding whitespace aside.
pub fn parse_count(answer: &str) -> (r: Option<i32>)
    ensures
        r matches Some(v) ==> count_of(trim_of(answer@)) == Some(v as int),
        r is None ==> count_of(trim_of(answer@)) is None,
{
    count_from_word(trimmed(answer))
}


/// A request to create one topic.
pub struct TopicRequest {
    pub name: String,
    pub partitions: i32,
    pub replication: i32,
}

/// Why the operator's answers do not make a topic-creation request.
#[derive(Clone, Copy, Debug, PartialEq, Eq, Structural)]
pub enum RequestError {
    EmptyName,
    InvalidPartitions,
    InvalidReplication,
}

/// Builds a topic-creation request from the operator's three answers: a
/// non-empty name, then the partition count and the replication factor,
/// each of which defaults to one when left blank.
pub fn topic_request(name: &str, partitions: &str, replication: &str) -> (r: Result<
    TopicRequest,
    RequestError,
>)
    ensures
        name@.len() == 0 <==> r == Err::<TopicRequest, RequestError>(RequestError::EmptyName),
        r == Err::<TopicRequest, RequestError>(RequestError::InvalidPartitions) <==> (name@.len()
            > 0 && count_of(trim_of(partitions@)) is None),
        r == Err::<TopicRequest, RequestError>(RequestError::InvalidReplication) <==> (name@.len()
            > 0 && count_of(trim_of(partitions@)) is Some && count_of(trim_of(replication@)) is None),
        r matches Ok(req) ==> {
            &&& req.name@ == name@
            &&& count_of(trim_of(partitions@)) == Some(req.partitions as int)
            &&& count_of(trim_of(replication@)) == Some(req.replication as int)
        },
{
    if name.unicode_len() == 0 {
        return Err(RequestError::EmptyName);
    }
    let p = match parse_count(partitions) {
        Some(p) => p,
        None => return Err(RequestError::InvalidPartitions),
    };
    let f = match parse_count(replication) {
        Some(f) => f,
        None => return Err(RequestError::InvalidReplication),
    };
    Ok(TopicRequest { name: name.to_owned(), partitions: p, replication: f })
}

/// The line announcing a request: name, partition count and replication
/// factor.
pub open spec fn creation_line_text(req: TopicRequest) -> Seq<char> {
    "Create topic "@ + req.name@ + " "@ + decimal(req.partitions as int) + ":"@ + decimal(
        req.replication as int,
    )
}

impl TopicRequest {
    /// The line that announces this request before it is sent.
    pub fn creation_line(&self) -> (r: String)
        ensures
            r@ == creation_line_text(*self),
    {
        let mut s = String::from_str("Create topic ");
        s.append(self.name.as_str());
        s.append(" ");
        push_decimal(&mut s, self.partitions as i64);
        s.append(":");
        push_decimal(&mut s, self.replication as i64);
        assert(s@ =~= creation_line_text(*self));
        s
    }
}

} // verus!
