use vstd::prelude::*;

use crate::document::{entries_view, find, lemma_find_first, lookup, Scalar, ScalarModel};

verus! {

/// How many times the watchdog retries a failed module before it gives up.
#[derive(Clone, Copy, Debug, PartialEq, Eq, Structural)]
pub enum RetryLimit {
    Infinite,
    Num(u32),
}

/// The watchdog's policy.
#[derive(Clone, Copy, Debug, PartialEq, Eq, Structural)]
pub struct Settings {
    pub max_retries: RetryLimit,
}

/// The policy that stands where a document gives none.
pub open spec fn default_watchdog() -> Settings {
    Settings { max_retries: RetryLimit::Infinite }
}

impl Default for Settings {
    fn default() -> (r: Settings)
        ensures
            r == default_watchdog(),
    {
        Settings { max_retries: RetryLimit::Infinite }
    }
}

/// The retry limit that a scalar describes: the word `infinite` or a count that fits 32 bits.
pub open spec fn retry_limit_of(v: ScalarModel) -> Option<RetryLimit> {
    match v {
        ScalarModel::Text(t) => if t == "infinite"@ {
            Some(RetryLimit::Infinite)
        } else {
            None
        },
        ScalarModel::Number(n) => if n <= u32::MAX {
            Some(RetryLimit::Num(n as u32))
        } else {
            None
        },
    }
}

/// The policy that a record describes; without `max_retries` the limit is infinite.
pub open spec fn watchdog_of(rec: Seq<(Seq<char>, ScalarModel)>) -> Option<Settings> {
    match find(rec, "max_retries"@) {
        None => Some(default_watchdog()),
        Some(v) => match retry_limit_of(v) {
            Some(l) => Some(Settings { max_retries: l }),
            None => None,
        },
    }
}

/// The record that a policy is written as.
pub open spec fn watchdog_record(s: Settings) -> Seq<(Seq<char>, ScalarModel)> {
    seq![
        ("max_retries"@, match s.max_retries {
            RetryLimit::Infinite => ScalarModel::Text("infinite"@),
            RetryLimit::Num(n) => ScalarModel::Number(n as u64),
        }),
    ]
}

/// A policy written as a record reads back as the same policy.
pub proof fn lemma_watchdog_round_trip(s: Settings)
    ensures
        watchdog_of(watchdog_record(s)) == Some(s),
{
    lemma_find_first(watchdog_record(s), "max_retries"@, 0);
}

impl Settings {
    /// Reads a policy from its record.
    pub fn from_record(rec: &Vec<(String, Scalar)>) -> (r: Option<Settings>)
        ensures
            r == watchdog_of(entries_view(rec@)),
    {
        match lookup(rec, &"max_retries".to_owned()) {
            None => Some(Settings { max_retries: RetryLimit::Infinite }),
            Some(Scalar::Text(t)) => {
                if *t == "infinite".to_owned() {
                    Some(Settings { max_retries: RetryLimit::Infinite })
                } else {
                    None
                }
            },
            Some(Scalar::Number(n)) => {
                if *n <= u32::MAX as u64 {
                    Some(Settings { max_retries: RetryLimit::Num(*n as u32) })
                } else {
                    None
                }
            },
        }
    }

    /// Writes this policy as a record.
    pub fn to_record(&self) -> (r: Vec<(String, Scalar)>)
        ensures
            entries_view(r@) == watchdog_record(*self),
    {
        let v = match self.max_retries {
            RetryLimit::Infinite => Scalar::Text("infinite".to_owned()),
            RetryLimit::Num(n) => Scalar::Number(n as u64),
        };
        let mut r: Vec<(String, Scalar)> = Vec::new();
        r.push(("max_retries".to_owned(), v));
        assert(entries_view(r@) =~= watchdog_record(*self));
        r
    }
}

} // verus!
