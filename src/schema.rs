use vstd::prelude::*;

use crate::aziot::{endpoints_of, lemma_mode_round_trip, mode_name, mode_of, AutoReprovisioningMode};
use crate::document::{
    find, lemma_find_concat, lemma_find_present, lemma_find_single, lemma_find_without_key,
    without_key, ValueModel,
};
use crate::module::{
    is_config_text, lemma_module_round_trip, module_of, module_record, ModuleConfigText, ModuleModel,
};
use crate::uri::{lemma_uri_pair_round_trip, uri_pair_of, uri_pair_record, UriPair};
use crate::watchdog::{default_watchdog, lemma_watchdog_round_trip, watchdog_of, watchdog_record};

verus! {

/// The top-level fields of a settings document.
#[derive(Clone, Copy, Debug, PartialEq, Eq, Structural)]
pub enum Field {
    Hostname,
    EdgeCaCert,
    EdgeCaKey,
    TrustBundleCert,
    ManifestTrustBundleCert,
    AutoReprovisioningMode,
    Homedir,
    Agent,
    Connect,
    Listen,
    Watchdog,
    Endpoints,
}

/// What is wrong with a field.
#[derive(Clone, Copy, Debug, PartialEq, Eq, Structural)]
pub enum SchemaErrorKind {
    /// A required field is not in the document.
    MissingField,
    /// The field is there, but its value does not have the shape the field needs.
    InvalidValue,
}

/// Why a document does not describe settings: the first field, in declaration order, that is wrong.
#[derive(Clone, Copy, Debug, PartialEq, Eq, Structural)]
pub struct SchemaError {
    pub field: Field,
    pub kind: SchemaErrorKind,
}

/// What settings hold, as mathematical values.
pub struct SettingsModel {
    pub hostname: Seq<char>,
    pub edge_ca_cert: Option<Seq<char>>,
    pub edge_ca_key: Option<Seq<char>>,
    pub trust_bundle_cert: Option<Seq<char>>,
    pub manifest_trust_bundle_cert: Option<Seq<char>>,
    pub auto_reprovisioning_mode: AutoReprovisioningMode,
    pub homedir: Seq<char>,
    pub agent: ModuleModel,
    pub connect: UriPair,
    pub listen: UriPair,
    pub watchdog: crate::watchdog::Settings,
    pub endpoints: Seq<(Seq<char>, Seq<char>)>,
}

/// A field that must be there and hold text.
pub open spec fn required_text(v: Option<ValueModel>) -> Result<Seq<char>, SchemaErrorKind> {
    match v {
        None => Err(SchemaErrorKind::MissingField),
        Some(ValueModel::Text(t)) => Ok(t),
        Some(_) => Err(SchemaErrorKind::InvalidValue),
    }
}

/// A field that may be left out, and holds text where it is there.
pub open spec fn optional_text(v: Option<ValueModel>) -> Result<Option<Seq<char>>, SchemaErrorKind> {
    match v {
        None => Ok(None),
        Some(ValueModel::Text(t)) => Ok(Some(t)),
        Some(_) => Err(SchemaErrorKind::InvalidValue),
    }
}

/// The reprovisioning mode; `Dynamic` where it is left out.
pub open spec fn mode_field(v: Option<ValueModel>) -> Result<AutoReprovisioningMode, SchemaErrorKind> {
    match v {
        None => Ok(AutoReprovisioningMode::Dynamic),
        Some(v) => match mode_of(v) {
            Some(m) => Ok(m),
            None => Err(SchemaErrorKind::InvalidValue),
        },
    }
}

/// The agent's settings: a required record.
pub open spec fn agent_field<T: ModuleConfigText>(v: Option<ValueModel>) -> Result<
    ModuleModel,
    SchemaErrorKind,
> {
    match v {
        None => Err(SchemaErrorKind::MissingField),
        Some(ValueModel::Record(r)) => match module_of::<T>(r) {
            Some(m) => Ok(m),
            None => Err(SchemaErrorKind::InvalidValue),
        },
        Some(_) => Err(SchemaErrorKind::InvalidValue),
    }
}

/// A pair of URIs: a required record.
pub open spec fn uri_field(v: Option<ValueModel>) -> Result<UriPair, SchemaErrorKind> {
    match v {
        None => Err(SchemaErrorKind::MissingField),
        Some(ValueModel::Record(r)) => match uri_pair_of(r) {
            Some(p) => Ok(p),
            None => Err(SchemaErrorKind::InvalidValue),
        },
        Some(_) => Err(SchemaErrorKind::InvalidValue),
    }
}

/// The watchdog's policy: a record, and the default policy where it is left out.
pub open spec fn watchdog_field(v: Option<ValueModel>) -> Result<
    crate::watchdog::Settings,
    SchemaErrorKind,
> {
    match v {
        None => Ok(default_watchdog()),
        Some(ValueModel::Record(r)) => match watchdog_of(r) {
            Some(w) => Ok(w),
            None => Err(SchemaErrorKind::InvalidValue),
        },
        Some(_) => Err(SchemaErrorKind::InvalidValue),
    }
}

/// The endpoints: read from the document only where `debug` allows it, and otherwise
/// empty whatever the document holds.
pub open spec fn endpoints_field(v: Option<ValueModel>, debug: bool) -> Result<
    Seq<(Seq<char>, Seq<char>)>,
    SchemaErrorKind,
> {
    if !debug {
        Ok(Seq::empty())
    } else {
        match v {
            None => Ok(Seq::empty()),
            Some(ValueModel::Record(r)) => match endpoints_of(r) {
                Some(e) => Ok(e),
                None => Err(SchemaErrorKind::InvalidValue),
            },
            Some(_) => Err(SchemaErrorKind::InvalidValue),
        }
    }
}

/// The settings that a document describes, or the first field that is wrong.
pub open spec fn settings_of<T: ModuleConfigText>(
    d: Seq<(Seq<char>, ValueModel)>,
    debug: bool,
) -> Result<SettingsModel, SchemaError> {
    let hostname = required_text(find(d, "hostname"@));
    let edge_ca_cert = optional_text(find(d, "edge_ca_cert"@));
    let edge_ca_key = optional_text(find(d, "edge_ca_key"@));
    let trust_bundle_cert = optional_text(find(d, "trust_bundle_cert"@));
    let manifest_trust_bundle_cert = optional_text(find(d, "manifest_trust_bundle_cert"@));
    let mode = mode_field(find(d, "auto_reprovisioning_mode"@));
    let homedir = required_text(find(d, "homedir"@));
    let agent = agent_field::<T>(find(d, "agent"@));
    let connect = uri_field(find(d, "connect"@));
    let listen = uri_field(find(d, "listen"@));
    let watchdog = watchdog_field(find(d, "watchdog"@));
    let endpoints = endpoints_field(find(d, "endpoints"@), debug);
    if hostname is Err {
        Err(SchemaError { field: Field::Hostname, kind: hostname->Err_0 })
    } else if edge_ca_cert is Err {
        Err(SchemaError { field: Field::EdgeCaCert, kind: edge_ca_cert->Err_0 })
    } else if edge_ca_key is Err {
        Err(SchemaError { field: Field::EdgeCaKey, kind: edge_ca_key->Err_0 })
    } else if trust_bundle_cert is Err {
        Err(SchemaError { field: Field::TrustBundleCert, kind: trust_bundle_cert->Err_0 })
    } else if manifest_trust_bundle_cert is Err {
        Err(
            SchemaError {
                field: Field::ManifestTrustBundleCert,
                kind: manifest_trust_bundle_cert->Err_0,
            },
        )
    } else if mode is Err {
        Err(SchemaError { field: Field::AutoReprovisioningMode, kind: mode->Err_0 })
    } else if homedir is Err {
        Err(SchemaError { field: Field::Homedir, kind: homedir->Err_0 })
    } else if agent is Err {
        Err(SchemaError { field: Field::Agent, kind: agent->Err_0 })
    } else if connect is Err {
        Err(SchemaError { field: Field::Connect, kind: connect->Err_0 })
    } else if listen is Err {
        Err(SchemaError { field: Field::Listen, kind: listen->Err_0 })
    } else if watchdog is Err {
        Err(SchemaError { field: Field::Watchdog, kind: watchdog->Err_0 })
    } else if endpoints is Err {
        Err(SchemaError { field: Field::Endpoints, kind: endpoints->Err_0 })
    } else {
        Ok(
            SettingsModel {
                hostname: hostname->Ok_0,
                edge_ca_cert: edge_ca_cert->Ok_0,
                edge_ca_key: edge_ca_key->Ok_0,
                trust_bundle_cert: trust_bundle_cert->Ok_0,
                manifest_trust_bundle_cert: manifest_trust_bundle_cert->Ok_0,
                auto_reprovisioning_mode: mode->Ok_0,
                homedir: homedir->Ok_0,
                agent: agent->Ok_0,
                connect: connect->Ok_0,
                listen: listen->Ok_0,
                watchdog: watchdog->Ok_0,
                endpoints: endpoints->Ok_0,
            },
        )
    }
}

/// An entry for an optional text field: none where the field is absent.
pub open spec fn optional_entry(key: Seq<char>, v: Option<Seq<char>>) -> Seq<
    (Seq<char>, ValueModel),
> {
    match v {
        Some(t) => seq![(key, ValueModel::Text(t))],
        None => Seq::empty(),
    }
}

/// The document that settings are written as: absent optional fields are left out,
/// the mode and the watchdog policy are always written, the endpoints never.
pub open spec fn document_of(m: SettingsModel) -> Seq<(Seq<char>, ValueModel)> {
    seq![("hostname"@, ValueModel::Text(m.hostname))]
        + optional_entry("edge_ca_cert"@, m.edge_ca_cert)
        + optional_entry("edge_ca_key"@, m.edge_ca_key)
        + optional_entry("trust_bundle_cert"@, m.trust_bundle_cert)
        + optional_entry("manifest_trust_bundle_cert"@, m.manifest_trust_bundle_cert)
        + seq![("auto_reprovisioning_mode"@, ValueModel::Text(mode_name(m.auto_reprovisioning_mode)))]
        + seq![("homedir"@, ValueModel::Text(m.homedir))]
        + seq![("agent"@, ValueModel::Record(module_record(m.agent)))]
        + seq![("connect"@, ValueModel::Record(uri_pair_record(m.connect)))]
        + seq![("listen"@, ValueModel::Record(uri_pair_record(m.listen)))]
        + seq![("watchdog"@, ValueModel::Record(watchdog_record(m.watchdog)))]
}

/// Looking up a key in the entry of an optional field.
pub proof fn lemma_find_optional(key: Seq<char>, v: Option<Seq<char>>)
    ensures
        forall|k: Seq<char>|
            #[trigger] find(optional_entry(key, v), k) == if key == k && v is Some {
                Some(ValueModel::Text(v->0))
            } else {
                None
            },
{
    match v {
        Some(t) => lemma_find_single(key, ValueModel::Text(t)),
        None => {
            assert forall|k: Seq<char>| #[trigger] find(optional_entry(key, v), k) is None by {
                assert(optional_entry(key, v).len() == 0);
            }
        },
    }
}

/// The keys of the top-level fields differ from one another.
pub proof fn lemma_keys_differ()
    ensures
        "hostname"@ != "watchdog"@,
        "homedir"@ != "connect"@,
        "hostname"@.len() == 8,
        "edge_ca_cert"@.len() == 12,
        "edge_ca_key"@.len() == 11,
        "trust_bundle_cert"@.len() == 17,
        "manifest_trust_bundle_cert"@.len() == 26,
        "auto_reprovisioning_mode"@.len() == 24,
        "homedir"@.len() == 7,
        "agent"@.len() == 5,
        "connect"@.len() == 7,
        "listen"@.len() == 6,
        "watchdog"@.len() == 8,
        "endpoints"@.len() == 9,
{
    reveal_strlit("hostname");
    reveal_strlit("edge_ca_cert");
    reveal_strlit("edge_ca_key");
    reveal_strlit("trust_bundle_cert");
    reveal_strlit("manifest_trust_bundle_cert");
    reveal_strlit("auto_reprovisioning_mode");
    reveal_strlit("homedir");
    reveal_strlit("agent");
    reveal_strlit("connect");
    reveal_strlit("listen");
    reveal_strlit("watchdog");
    reveal_strlit("endpoints");
    assert("hostname"@[0] != "watchdog"@[0]);
    assert("homedir"@[0] != "connect"@[0]);
}

/// Where each top-level key is found in the document that settings are written as.
pub proof fn lemma_find_in_document(m: SettingsModel)
    ensures
        forall|k: Seq<char>|
            #[trigger] find(document_of(m), k) == if k == "hostname"@ {
                Some(ValueModel::Text(m.hostname))
            } else if k == "edge_ca_cert"@ {
                optional_text_value(m.edge_ca_cert)
            } else if k == "edge_ca_key"@ {
                optional_text_value(m.edge_ca_key)
            } else if k == "trust_bundle_cert"@ {
                optional_text_value(m.trust_bundle_cert)
            } else if k == "manifest_trust_bundle_cert"@ {
                optional_text_value(m.manifest_trust_bundle_cert)
            } else if k == "auto_reprovisioning_mode"@ {
                Some(ValueModel::Text(mode_name(m.auto_reprovisioning_mode)))
            } else if k == "homedir"@ {
                Some(ValueModel::Text(m.homedir))
            } else if k == "agent"@ {
                Some(ValueModel::Record(module_record(m.agent)))
            } else if k == "connect"@ {
                Some(ValueModel::Record(uri_pair_record(m.connect)))
            } else if k == "listen"@ {
                Some(ValueModel::Record(uri_pair_record(m.listen)))
            } else if k == "watchdog"@ {
                Some(ValueModel::Record(watchdog_record(m.watchdog)))
            } else {
                None::<ValueModel>
            },
{
    lemma_keys_differ();
    let e0 = seq![("hostname"@, ValueModel::Text(m.hostname))];
    let e1 = optional_entry("edge_ca_cert"@, m.edge_ca_cert);
    let e2 = optional_entry("edge_ca_key"@, m.edge_ca_key);
    let e3 = optional_entry("trust_bundle_cert"@, m.trust_bundle_cert);
    let e4 = optional_entry("manifest_trust_bundle_cert"@, m.manifest_trust_bundle_cert);
    let e5 = seq![("auto_reprovisioning_mode"@, ValueModel::Text(mode_name(m.auto_reprovisioning_mode)))];
    let e6 = seq![("homedir"@, ValueModel::Text(m.homedir))];
    let e7 = seq![("agent"@, ValueModel::Record(module_record(m.agent)))];
    let e8 = seq![("connect"@, ValueModel::Record(uri_pair_record(m.connect)))];
    let e9 = seq![("listen"@, ValueModel::Record(uri_pair_record(m.listen)))];
    let e10 = seq![("watchdog"@, ValueModel::Record(watchdog_record(m.watchdog)))];
    lemma_find_single("hostname"@, ValueModel::Text(m.hostname));
    lemma_find_optional("edge_ca_cert"@, m.edge_ca_cert);
    lemma_find_optional("edge_ca_key"@, m.edge_ca_key);
    lemma_find_optional("trust_bundle_cert"@, m.trust_bundle_cert);
    lemma_find_optional("manifest_trust_bundle_cert"@, m.manifest_trust_bundle_cert);
    lemma_find_single("auto_reprovisioning_mode"@, ValueModel::Text(mode_name(m.auto_reprovisioning_mode)));
    lemma_find_single("homedir"@, ValueModel::Text(m.homedir));
    lemma_find_single("agent"@, ValueModel::Record(module_record(m.agent)));
    lemma_find_single("connect"@, ValueModel::Record(uri_pair_record(m.connect)));
    lemma_find_single("listen"@, ValueModel::Record(uri_pair_record(m.listen)));
    lemma_find_single("watchdog"@, ValueModel::Record(watchdog_record(m.watchdog)));
    lemma_find_concat(e0, e1);
    lemma_find_concat(e0 + e1, e2);
    lemma_find_concat(e0 + e1 + e2, e3);
    lemma_find_concat(e0 + e1 + e2 + e3, e4);
    lemma_find_concat(e0 + e1 + e2 + e3 + e4, e5);
    lemma_find_concat(e0 + e1 + e2 + e3 + e4 + e5, e6);
    lemma_find_concat(e0 + e1 + e2 + e3 + e4 + e5 + e6, e7);
    lemma_find_concat(e0 + e1 + e2 + e3 + e4 + e5 + e6 + e7, e8);
    lemma_find_concat(e0 + e1 + e2 + e3 + e4 + e5 + e6 + e7 + e8, e9);
    lemma_find_concat(e0 + e1 + e2 + e3 + e4 + e5 + e6 + e7 + e8 + e9, e10);
}

/// The value that an optional text field is found as.
pub open spec fn optional_text_value(v: Option<Seq<char>>) -> Option<ValueModel> {
    match v {
        Some(t) => Some(ValueModel::Text(t)),
        None => None,
    }
}

/// Settings written as a document read back as the same settings, but for the endpoints,
/// which are never written and so read back empty, whether `debug` is set or not.
pub proof fn lemma_document_round_trip<T: ModuleConfigText>(m: SettingsModel, debug: bool)
    requires
        is_config_text::<T>(m.agent.config),
    ensures
        settings_of::<T>(document_of(m), debug) == Ok::<SettingsModel, SchemaError>(
            SettingsModel { endpoints: Seq::empty(), ..m },
        ),
{
    lemma_find_in_document(m);
    lemma_keys_differ();
    lemma_mode_round_trip(m.auto_reprovisioning_mode);
    lemma_module_round_trip::<T>(m.agent);
    lemma_uri_pair_round_trip(m.connect);
    lemma_uri_pair_round_trip(m.listen);
    lemma_watchdog_round_trip(m.watchdog);
    let r = settings_of::<T>(document_of(m), debug);
    assert(r->Ok_0.endpoints =~= Seq::<(Seq<char>, Seq<char>)>::empty());
}

/// No entry of a written document has the key `endpoints`.
pub proof fn lemma_document_has_no_endpoints(m: SettingsModel)
    ensures
        forall|i: int| 0 <= i < document_of(m).len() ==> #[trigger] document_of(m)[i].0 != "endpoints"@,
{
    lemma_find_in_document(m);
    lemma_keys_differ();
    assert forall|i: int| 0 <= i < document_of(m).len() implies #[trigger] document_of(m)[i].0
        != "endpoints"@ by {
        if document_of(m)[i].0 == "endpoints"@ {
            lemma_find_present(document_of(m), "endpoints"@, i);
        }
    }
}

/// The top-level fields that a document may leave out.
pub open spec fn is_optional_key(k: Seq<char>) -> bool {
    ||| k == "edge_ca_cert"@
    ||| k == "edge_ca_key"@
    ||| k == "trust_bundle_cert"@
    ||| k == "manifest_trust_bundle_cert"@
    ||| k == "auto_reprovisioning_mode"@
    ||| k == "watchdog"@
    ||| k == "endpoints"@
}

/// The top-level fields that a document must hold.
pub open spec fn is_required_key(k: Seq<char>) -> bool {
    ||| k == "hostname"@
    ||| k == "homedir"@
    ||| k == "agent"@
    ||| k == "connect"@
    ||| k == "listen"@
}

/// `m` with the field of key `k` set to what stands where a document leaves it out.
pub open spec fn with_default(m: SettingsModel, k: Seq<char>) -> SettingsModel {
    if k == "edge_ca_cert"@ {
        SettingsModel { edge_ca_cert: None, ..m }
    } else if k == "edge_ca_key"@ {
        SettingsModel { edge_ca_key: None, ..m }
    } else if k == "trust_bundle_cert"@ {
        SettingsModel { trust_bundle_cert: None, ..m }
    } else if k == "manifest_trust_bundle_cert"@ {
        SettingsModel { manifest_trust_bundle_cert: None, ..m }
    } else if k == "auto_reprovisioning_mode"@ {
        SettingsModel { auto_reprovisioning_mode: AutoReprovisioningMode::Dynamic, ..m }
    } else if k == "watchdog"@ {
        SettingsModel { watchdog: default_watchdog(), ..m }
    } else if k == "endpoints"@ {
        SettingsModel { endpoints: Seq::empty(), ..m }
    } else {
        m
    }
}

/// Leaving an optional field out of a document that describes settings still gives
/// settings: the same ones, with that field at its default (absent, `Dynamic`, the
/// default watchdog policy, or no endpoints).
pub proof fn lemma_omitted_optional_field<T: ModuleConfigText>(
    d: Seq<(Seq<char>, ValueModel)>,
    debug: bool,
    key: Seq<char>,
)
    requires
        is_optional_key(key),
        settings_of::<T>(d, debug) is Ok,
    ensures
        settings_of::<T>(without_key(d, key), debug) == Ok::<SettingsModel, SchemaError>(
            with_default(settings_of::<T>(d, debug)->Ok_0, key),
        ),
{
    lemma_find_without_key(d, key);
    lemma_keys_differ();
    let m = settings_of::<T>(d, debug)->Ok_0;
    let r = settings_of::<T>(without_key(d, key), debug);
    if key == "endpoints"@ {
        assert(r->Ok_0.endpoints =~= Seq::<(Seq<char>, Seq<char>)>::empty());
    }
}

/// A document without one of the required fields describes no settings, whatever else it holds.
pub proof fn lemma_missing_required_field<T: ModuleConfigText>(
    d: Seq<(Seq<char>, ValueModel)>,
    debug: bool,
    key: Seq<char>,
)
    requires
        is_required_key(key),
        find(d, key) is None,
    ensures
        settings_of::<T>(d, debug) is Err,
{
}

} // verus!
