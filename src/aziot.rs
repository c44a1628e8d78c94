use vstd::prelude::*;

use crate::document::{entries_view, find, lookup, Scalar, ScalarModel, Value, ValueModel};

verus! {

/// When the device establishes its identity again with the provisioning service.
#[derive(Clone, Copy, Debug, PartialEq, Eq, Structural)]
pub enum AutoReprovisioningMode {
    Dynamic,
    AlwaysOnStartup,
    OnErrorOnly,
}

impl Default for AutoReprovisioningMode {
    fn default() -> (r: AutoReprovisioningMode)
        ensures
            r == AutoReprovisioningMode::Dynamic,
    {
        AutoReprovisioningMode::Dynamic
    }
}

/// The name under which a mode is written.
pub open spec fn mode_name(m: AutoReprovisioningMode) -> Seq<char> {
    match m {
        AutoReprovisioningMode::Dynamic => "Dynamic"@,
        AutoReprovisioningMode::AlwaysOnStartup => "AlwaysOnStartup"@,
        AutoReprovisioningMode::OnErrorOnly => "OnErrorOnly"@,
    }
}

/// The mode that a value names, if it is the text of one of the three names.
pub open spec fn mode_of(v: ValueModel) -> Option<AutoReprovisioningMode> {
    match v {
        ValueModel::Text(t) => if t == "Dynamic"@ {
            Some(AutoReprovisioningMode::Dynamic)
        } else if t == "AlwaysOnStartup"@ {
            Some(AutoReprovisioningMode::AlwaysOnStartup)
        } else if t == "OnErrorOnly"@ {
            Some(AutoReprovisioningMode::OnErrorOnly)
        } else {
            None
        },
        _ => None,
    }
}

/// A mode written by its name reads back as the same mode.
pub proof fn lemma_mode_round_trip(m: AutoReprovisioningMode)
    ensures
        mode_of(ValueModel::Text(mode_name(m))) == Some(m),
{
    reveal_strlit("Dynamic");
    reveal_strlit("AlwaysOnStartup");
    reveal_strlit("OnErrorOnly");
    assert("Dynamic"@.len() != "AlwaysOnStartup"@.len());
    assert("Dynamic"@.len() != "OnErrorOnly"@.len());
    assert("AlwaysOnStartup"@.len() != "OnErrorOnly"@.len());
}

impl AutoReprovisioningMode {
    /// Reads a mode from the value that names it.
    pub fn from_value(v: &Value) -> (r: Option<AutoReprovisioningMode>)
        ensures
            r == mode_of(v@),
    {
        match v {
            Value::Text(t) => {
                if *t == "Dynamic".to_owned() {
                    Some(AutoReprovisioningMode::Dynamic)
                } else if *t == "AlwaysOnStartup".to_owned() {
                    Some(AutoReprovisioningMode::AlwaysOnStartup)
                } else if *t == "OnErrorOnly".to_owned() {
                    Some(AutoReprovisioningMode::OnErrorOnly)
                } else {
                    None
                }
            },
            _ => None,
        }
    }

    /// Writes this mode as the text of its name.
    pub fn to_value(&self) -> (r: Value)
        ensures
            r@ == ValueModel::Text(mode_name(*self)),
    {
        match self {
            AutoReprovisioningMode::Dynamic => Value::Text("Dynamic".to_owned()),
            AutoReprovisioningMode::AlwaysOnStartup => Value::Text("AlwaysOnStartup".to_owned()),
            AutoReprovisioningMode::OnErrorOnly => Value::Text("OnErrorOnly".to_owned()),
        }
    }
}

/// Service names and the URIs at which those services are reached.
#[derive(Clone, Debug, PartialEq, Eq)]
pub struct Endpoints {
    entries: Vec<(String, String)>,
}

impl View for Endpoints {
    type V = Seq<(Seq<char>, Seq<char>)>;

    closed spec fn view(&self) -> Seq<(Seq<char>, Seq<char>)> {
        entries_view(self.entries@)
    }
}

/// The endpoints that a record describes: every entry must hold text.
pub open spec fn endpoints_of(rec: Seq<(Seq<char>, ScalarModel)>) -> Option<
    Seq<(Seq<char>, Seq<char>)>,
> {
    if forall|i: int| 0 <= i < rec.len() ==> rec[i].1 is Text {
        Some(rec.map_values(|e: (Seq<char>, ScalarModel)| (e.0, e.1->Text_0)))
    } else {
        None
    }
}

impl Default for Endpoints {
    fn default() -> (r: Endpoints)
        ensures
            r@ == Seq::<(Seq<char>, Seq<char>)>::empty(),
    {
        let r = Endpoints { entries: Vec::new() };
        assert(r@ =~= Seq::<(Seq<char>, Seq<char>)>::empty());
        r
    }
}

impl Endpoints {
    /// The URI of the named service; the first entry with that name wins.
    pub fn get(&self, name: &String) -> (r: Option<&String>)
        ensures
            r matches Some(u) ==> find(self@, name@) == Some(u@),
            r is None ==> find(self@, name@) is None,
    {
        lookup(&self.entries, name)
    }

    /// The number of entries.
    pub fn len(&self) -> (r: usize)
        ensures
            r == self@.len(),
    {
        self.entries.len()
    }

    /// Whether there are no entries.
    pub fn is_empty(&self) -> (r: bool)
        ensures
            r == (self@.len() == 0),
    {
        self.entries.len() == 0
    }

    /// Reads endpoints from their record.
    pub fn from_record(rec: &Vec<(String, Scalar)>) -> (r: Option<Endpoints>)
        ensures
            r matches Some(e) ==> endpoints_of(entries_view(rec@)) == Some(e@),
            r is None ==> endpoints_of(entries_view(rec@)) is None,
    {
        let ghost src = entries_view(rec@);
        let mut entries: Vec<(String, String)> = Vec::new();
        let mut i: usize = 0;
        while i < rec.len()
            invariant
                i <= rec.len(),
                src == entries_view(rec@),
                src.len() == rec@.len(),
                entries@.len() == i,
                forall|j: int| 0 <= j < i ==> src[j].1 is Text,
                forall|j: int|
                    0 <= j < i ==> #[trigger] entries_view(entries@)[j] == (
                        src[j].0,
                        src[j].1->Text_0,
                    ),
            decreases rec.len() - i,
        {
            assert(src[i as int] == (rec@[i as int].0@, rec@[i as int].1@));
            match &rec[i].1 {
                Scalar::Text(t) => {
                    let ghost before = entries@;
                    entries.push((rec[i].0.clone(), t.clone()));
                    assert forall|j: int| 0 <= j < i + 1 implies #[trigger] entries_view(
                        entries@,
                    )[j] == (src[j].0, src[j].1->Text_0) by {
                        if j < i {
                            assert(entries@[j] == before[j]);
                            assert(entries_view(before)[j] == (src[j].0, src[j].1->Text_0));
                        }
                    }
                },
                Scalar::Number(_) => {
                    assert(!(src[i as int].1 is Text));
                    return None;
                },
            }
            i = i + 1;
        }
        let r = Endpoints { entries };
        assert(r@ =~= src.map_values(|e: (Seq<char>, ScalarModel)| (e.0, e.1->Text_0)));
        Some(r)
    }
}

} // verus!
