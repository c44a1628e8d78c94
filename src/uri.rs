use vstd::prelude::*;

use crate::document::{entries_view, lemma_find_first, text_entry, text_in, Scalar, ScalarModel};

verus! {

/// Where the agent connects to its workload and management services.
#[derive(Clone, Debug, PartialEq, Eq)]
pub struct Connect {
    pub workload_uri: String,
    pub management_uri: String,
}

/// Where the agent listens for workload and management requests.
#[derive(Clone, Debug, PartialEq, Eq)]
pub struct Listen {
    pub workload_uri: String,
    pub management_uri: String,
}

/// The two URIs of a `Connect` or a `Listen`.
pub struct UriPair {
    pub workload_uri: Seq<char>,
    pub management_uri: Seq<char>,
}

impl View for Connect {
    type V = UriPair;

    open spec fn view(&self) -> UriPair {
        UriPair { workload_uri: self.workload_uri@, management_uri: self.management_uri@ }
    }
}

impl View for Listen {
    type V = UriPair;

    open spec fn view(&self) -> UriPair {
        UriPair { workload_uri: self.workload_uri@, management_uri: self.management_uri@ }
    }
}

/// The URI pair that a record describes: both keys must hold text.
pub open spec fn uri_pair_of(rec: Seq<(Seq<char>, ScalarModel)>) -> Option<UriPair> {
    match (text_in(rec, "workload_uri"@), text_in(rec, "management_uri"@)) {
        (Some(w), Some(m)) => Some(UriPair { workload_uri: w, management_uri: m }),
        _ => None,
    }
}

/// The record that a URI pair is written as.
pub open spec fn uri_pair_record(p: UriPair) -> Seq<(Seq<char>, ScalarModel)> {
    seq![
        ("workload_uri"@, ScalarModel::Text(p.workload_uri)),
        ("management_uri"@, ScalarModel::Text(p.management_uri)),
    ]
}

/// A URI pair written as a record reads back as the same pair.
pub proof fn lemma_uri_pair_round_trip(p: UriPair)
    ensures
        uri_pair_of(uri_pair_record(p)) == Some(p),
{
    reveal_strlit("workload_uri");
    reveal_strlit("management_uri");
    let rec = uri_pair_record(p);
    assert("workload_uri"@.len() != "management_uri"@.len());
    lemma_find_first(rec, "workload_uri"@, 0);
    lemma_find_first(rec, "management_uri"@, 1);
}

fn read_uri_pair(rec: &Vec<(String, Scalar)>) -> (r: Option<(String, String)>)
    ensures
        r matches Some(p) ==> uri_pair_of(entries_view(rec@)) == Some(
            UriPair { workload_uri: p.0@, management_uri: p.1@ },
        ),
        r is None ==> uri_pair_of(entries_view(rec@)) is None,
{
    let w = text_entry(rec, &"workload_uri".to_owned());
    let m = text_entry(rec, &"management_uri".to_owned());
    match (w, m) {
        (Some(w), Some(m)) => Some((w, m)),
        _ => None,
    }
}

fn write_uri_pair(workload_uri: &String, management_uri: &String) -> (r: Vec<(String, Scalar)>)
    ensures
        entries_view(r@) == uri_pair_record(
            UriPair { workload_uri: workload_uri@, management_uri: management_uri@ },
        ),
{
    let mut r: Vec<(String, Scalar)> = Vec::new();
    r.push(("workload_uri".to_owned(), Scalar::Text(workload_uri.clone())));
    r.push(("management_uri".to_owned(), Scalar::Text(management_uri.clone())));
    assert(entries_view(r@) =~= uri_pair_record(
        UriPair { workload_uri: workload_uri@, management_uri: management_uri@ },
    ));
    r
}

impl Connect {
    /// Reads a `Connect` from its record.
    pub fn from_record(rec: &Vec<(String, Scalar)>) -> (r: Option<Connect>)
        ensures
            r matches Some(c) ==> uri_pair_of(entries_view(rec@)) == Some(c@),
            r is None ==> uri_pair_of(entries_view(rec@)) is None,
    {
        match read_uri_pair(rec) {
            Some((w, m)) => Some(Connect { workload_uri: w, management_uri: m }),
            None => None,
        }
    }

    /// Writes this `Connect` as a record.
    pub fn to_record(&self) -> (r: Vec<(String, Scalar)>)
        ensures
            entries_view(r@) == uri_pair_record(self@),
    {
        write_uri_pair(&self.workload_uri, &self.management_uri)
    }
}

impl Listen {
    /// Reads a `Listen` from its record.
    pub fn from_record(rec: &Vec<(String, Scalar)>) -> (r: Option<Listen>)
        ensures
            r matches Some(l) ==> uri_pair_of(entries_view(rec@)) == Some(l@),
            r is None ==> uri_pair_of(entries_view(rec@)) is None,
    {
        match read_uri_pair(rec) {
            Some((w, m)) => Some(Listen { workload_uri: w, management_uri: m }),
            None => None,
        }
    }

    /// Writes this `Listen` as a record.
    pub fn to_record(&self) -> (r: Vec<(String, Scalar)>)
        ensures
            entries_view(r@) == uri_pair_record(self@),
    {
        write_uri_pair(&self.workload_uri, &self.management_uri)
    }
}

} // verus!
