//! Runtime settings of an edge device's management agent, and the configuration
//! document they are read from and written to.
use vstd::prelude::*;

pub mod aziot;
pub mod document;
pub mod error;
pub mod module;
pub mod schema;
pub mod uri;
pub mod watchdog;

use crate::aziot::{AutoReprovisioningMode, Endpoints};
use crate::document::{entries_view, value_opt, Document, Value};
use crate::module::{is_config_text, ModuleConfigText, ModuleModel};
use crate::schema::{
    agent_field, document_of, endpoints_field, lemma_document_has_no_endpoints,
    lemma_document_round_trip, mode_field, optional_entry, optional_text, required_text,
    settings_of, uri_field, watchdog_field, Field, SchemaError, SchemaErrorKind, SettingsModel,
};
use crate::uri::{Connect, Listen, UriPair};

verus! {

/// The view of an optional borrowed string.
pub open spec fn opt_str_view(o: Option<&str>) -> Option<Seq<char>> {
    match o {
        Some(s) => Some(s@),
        None => None,
    }
}

/// Read access to the runtime settings, and write access to the agent's settings alone.
pub trait RuntimeSettings {
    type ModuleConfig;

    spec fn spec_hostname(&self) -> Seq<char>;

    spec fn spec_edge_ca_cert(&self) -> Option<Seq<char>>;

    spec fn spec_edge_ca_key(&self) -> Option<Seq<char>>;

    spec fn spec_trust_bundle_cert(&self) -> Option<Seq<char>>;

    spec fn spec_manifest_trust_bundle_cert(&self) -> Option<Seq<char>>;

    spec fn spec_auto_reprovisioning_mode(&self) -> AutoReprovisioningMode;

    spec fn spec_homedir(&self) -> Seq<char>;

    spec fn spec_agent(&self) -> module::Settings<Self::ModuleConfig>;

    spec fn spec_connect(&self) -> Connect;

    spec fn spec_listen(&self) -> Listen;

    spec fn spec_watchdog(&self) -> watchdog::Settings;

    spec fn spec_endpoints(&self) -> Endpoints;

    fn hostname(&self) -> (r: &str)
        ensures
            r@ == self.spec_hostname(),
    ;

    fn edge_ca_cert(&self) -> (r: Option<&str>)
        ensures
            opt_str_view(r) == self.spec_edge_ca_cert(),
    ;

    fn edge_ca_key(&self) -> (r: Option<&str>)
        ensures
            opt_str_view(r) == self.spec_edge_ca_key(),
    ;

    fn trust_bundle_cert(&self) -> (r: Option<&str>)
        ensures
            opt_str_view(r) == self.spec_trust_bundle_cert(),
    ;

    fn manifest_trust_bundle_cert(&self) -> (r: Option<&str>)
        ensures
            opt_str_view(r) == self.spec_manifest_trust_bundle_cert(),
    ;

    fn auto_reprovisioning_mode(&self) -> (r: AutoReprovisioningMode)
        ensures
            r == self.spec_auto_reprovisioning_mode(),
    ;

    fn homedir(&self) -> (r: &str)
        ensures
            r@ == self.spec_homedir(),
    ;

    fn agent(&self) -> (r: &module::Settings<Self::ModuleConfig>)
        ensures
            *r == self.spec_agent(),
    ;

    /// The one way to change settings: the agent's settings, and nothing else.
    fn agent_mut(&mut self) -> (r: &mut module::Settings<Self::ModuleConfig>)
        ensures
            *r == old(self).spec_agent(),
            final(self).spec_agent() == *final(r),
            final(self).spec_hostname() == old(self).spec_hostname(),
            final(self).spec_edge_ca_cert() == old(self).spec_edge_ca_cert(),
            final(self).spec_edge_ca_key() == old(self).spec_edge_ca_key(),
            final(self).spec_trust_bundle_cert() == old(self).spec_trust_bundle_cert(),
            final(self).spec_manifest_trust_bundle_cert()
                == old(self).spec_manifest_trust_bundle_cert(),
            final(self).spec_auto_reprovisioning_mode() == old(
                self,
            ).spec_auto_reprovisioning_mode(),
            final(self).spec_homedir() == old(self).spec_homedir(),
            final(self).spec_connect() == old(self).spec_connect(),
            final(self).spec_listen() == old(self).spec_listen(),
            final(self).spec_watchdog() == old(self).spec_watchdog(),
            final(self).spec_endpoints() == old(self).spec_endpoints(),
    ;

    fn connect(&self) -> (r: &Connect)
        ensures
            *r == self.spec_connect(),
    ;

    fn listen(&self) -> (r: &Listen)
        ensures
            *r == self.spec_listen(),
    ;

    fn watchdog(&self) -> (r: &watchdog::Settings)
        ensures
            *r == self.spec_watchdog(),
    ;

    fn endpoints(&self) -> (r: &Endpoints)
        ensures
            *r == self.spec_endpoints(),
    ;
}

/// The settings of an edge device, generic over the deployment backend's module configuration.
#[derive(Clone, Debug)]
pub struct Settings<ModuleConfig> {
    hostname: String,
    edge_ca_cert: Option<String>,
    edge_ca_key: Option<String>,
    trust_bundle_cert: Option<String>,
    manifest_trust_bundle_cert: Option<String>,
    auto_reprovisioning_mode: AutoReprovisioningMode,
    homedir: String,
    agent: module::Settings<ModuleConfig>,
    connect: Connect,
    listen: Listen,
    watchdog: watchdog::Settings,
    /// Service names and URIs; read from a document only where the reader allows it.
    endpoints: Endpoints,
}

fn opt_as_str(o: &Option<String>) -> (r: Option<&str>)
    ensures
        opt_str_view(r) == opt_view(*o),
{
    match o {
        Some(s) => Some(s.as_str()),
        None => None,
    }
}

/// The view of an optional string.
pub open spec fn opt_view(o: Option<String>) -> Option<Seq<char>> {
    match o {
        Some(s) => Some(s@),
        None => None,
    }
}

impl<T: Clone> RuntimeSettings for Settings<T> {
    type ModuleConfig = T;

    closed spec fn spec_hostname(&self) -> Seq<char> {
        self.hostname@
    }

    closed spec fn spec_edge_ca_cert(&self) -> Option<Seq<char>> {
        opt_view(self.edge_ca_cert)
    }

    closed spec fn spec_edge_ca_key(&self) -> Option<Seq<char>> {
        opt_view(self.edge_ca_key)
    }

    closed spec fn spec_trust_bundle_cert(&self) -> Option<Seq<char>> {
        opt_view(self.trust_bundle_cert)
    }

    closed spec fn spec_manifest_trust_bundle_cert(&self) -> Option<Seq<char>> {
        opt_view(self.manifest_trust_bundle_cert)
    }

    closed spec fn spec_auto_reprovisioning_mode(&self) -> AutoReprovisioningMode {
        self.auto_reprovisioning_mode
    }

    closed spec fn spec_homedir(&self) -> Seq<char> {
        self.homedir@
    }

    closed spec fn spec_agent(&self) -> module::Settings<T> {
        self.agent
    }

    closed spec fn spec_connect(&self) -> Connect {
        self.connect
    }

    closed spec fn spec_listen(&self) -> Listen {
        self.listen
    }

    closed spec fn spec_watchdog(&self) -> watchdog::Settings {
        self.watchdog
    }

    closed spec fn spec_endpoints(&self) -> Endpoints {
        self.endpoints
    }

    fn hostname(&self) -> (r: &str) {
        self.hostname.as_str()
    }

    fn edge_ca_cert(&self) -> (r: Option<&str>) {
        opt_as_str(&self.edge_ca_cert)
    }

    fn edge_ca_key(&self) -> (r: Option<&str>) {
        opt_as_str(&self.edge_ca_key)
    }

    fn trust_bundle_cert(&self) -> (r: Option<&str>) {
        opt_as_str(&self.trust_bundle_cert)
    }

    fn manifest_trust_bundle_cert(&self) -> (r: Option<&str>) {
        opt_as_str(&self.manifest_trust_bundle_cert)
    }

    fn auto_reprovisioning_mode(&self) -> (r: AutoReprovisioningMode) {
        self.auto_reprovisioning_mode
    }

    fn homedir(&self) -> (r: &str) {
        self.homedir.as_str()
    }

    fn agent(&self) -> (r: &module::Settings<T>) {
        &self.agent
    }

    fn agent_mut(&mut self) -> (r: &mut module::Settings<T>) {
        &mut self.agent
    }

    fn connect(&self) -> (r: &Connect) {
        &self.connect
    }

    fn listen(&self) -> (r: &Listen) {
        &self.listen
    }

    fn watchdog(&self) -> (r: &watchdog::Settings) {
        &self.watchdog
    }

    fn endpoints(&self) -> (r: &Endpoints) {
        &self.endpoints
    }
}

impl<T: ModuleConfigText + Clone> View for Settings<T> {
    type V = SettingsModel;

    open spec fn view(&self) -> SettingsModel {
        SettingsModel {
            hostname: self.spec_hostname(),
            edge_ca_cert: self.spec_edge_ca_cert(),
            edge_ca_key: self.spec_edge_ca_key(),
            trust_bundle_cert: self.spec_trust_bundle_cert(),
            manifest_trust_bundle_cert: self.spec_manifest_trust_bundle_cert(),
            auto_reprovisioning_mode: self.spec_auto_reprovisioning_mode(),
            homedir: self.spec_homedir(),
            agent: self.spec_agent()@,
            connect: self.spec_connect()@,
            listen: self.spec_listen()@,
            watchdog: self.spec_watchdog(),
            endpoints: self.spec_endpoints()@,
        }
    }
}

/// Writing settings as a document and reading the document back gives the same settings,
/// but for the endpoints, which are never written and so come back empty in every mode.
pub proof fn lemma_settings_round_trip<T: ModuleConfigText + Clone>(s: Settings<T>, debug: bool)
    ensures
        settings_of::<T>(document_of(s@), debug) == Ok::<SettingsModel, SchemaError>(
            SettingsModel { endpoints: Seq::empty(), ..s@ },
        ),
{
    assert(is_config_text::<T>(s@.agent.config)) by {
        assert(s.spec_agent().config.text() == s@.agent.config);
    }
    lemma_document_round_trip::<T>(s@, debug);
}

/// The document that settings are written as never holds an `endpoints` key.
pub proof fn lemma_settings_document_has_no_endpoints<T: ModuleConfigText + Clone>(s: Settings<T>)
    ensures
        forall|i: int|
            0 <= i < document_of(s@).len() ==> #[trigger] document_of(s@)[i].0 != "endpoints"@,
{
    lemma_document_has_no_endpoints(s@);
}

fn read_required_text(v: Option<&Value>) -> (r: Result<String, SchemaErrorKind>)
    ensures
        r matches Ok(t) ==> required_text(value_opt(v)) == Ok::<Seq<char>, SchemaErrorKind>(t@),
        r matches Err(k) ==> required_text(value_opt(v)) == Err::<Seq<char>, SchemaErrorKind>(k),
{
    match v {
        None => Err(SchemaErrorKind::MissingField),
        Some(Value::Text(t)) => Ok(t.clone()),
        Some(_) => Err(SchemaErrorKind::InvalidValue),
    }
}

fn read_optional_text(v: Option<&Value>) -> (r: Result<Option<String>, SchemaErrorKind>)
    ensures
        r matches Ok(o) ==> optional_text(value_opt(v)) == Ok::<Option<Seq<char>>, SchemaErrorKind>(
            opt_view(o),
        ),
        r matches Err(k) ==> optional_text(value_opt(v)) == Err::<Option<Seq<char>>, SchemaErrorKind>(k),
{
    match v {
        None => Ok(None),
        Some(Value::Text(t)) => Ok(Some(t.clone())),
        Some(_) => Err(SchemaErrorKind::InvalidValue),
    }
}

fn read_mode(v: Option<&Value>) -> (r: Result<AutoReprovisioningMode, SchemaErrorKind>)
    ensures
        r == mode_field(value_opt(v)),
{
    match v {
        None => Ok(AutoReprovisioningMode::Dynamic),
        Some(v) => match AutoReprovisioningMode::from_value(v) {
            Some(m) => Ok(m),
            None => Err(SchemaErrorKind::InvalidValue),
        },
    }
}

fn read_agent<T: ModuleConfigText>(v: Option<&Value>) -> (r: Result<module::Settings<T>, SchemaErrorKind>)
    ensures
        r matches Ok(a) ==> agent_field::<T>(value_opt(v)) == Ok::<ModuleModel, SchemaErrorKind>(a@),
        r matches Err(k) ==> agent_field::<T>(value_opt(v)) == Err::<ModuleModel, SchemaErrorKind>(k),
{
    match v {
        None => Err(SchemaErrorKind::MissingField),
        Some(Value::Record(rec)) => match module::Settings::<T>::from_record(rec) {
            Some(a) => Ok(a),
            None => Err(SchemaErrorKind::InvalidValue),
        },
        Some(_) => Err(SchemaErrorKind::InvalidValue),
    }
}

fn read_connect(v: Option<&Value>) -> (r: Result<Connect, SchemaErrorKind>)
    ensures
        r matches Ok(c) ==> uri_field(value_opt(v)) == Ok::<UriPair, SchemaErrorKind>(c@),
        r matches Err(k) ==> uri_field(value_opt(v)) == Err::<UriPair, SchemaErrorKind>(k),
{
    match v {
        None => Err(SchemaErrorKind::MissingField),
        Some(Value::Record(rec)) => match Connect::from_record(rec) {
            Some(c) => Ok(c),
            None => Err(SchemaErrorKind::InvalidValue),
        },
        Some(_) => Err(SchemaErrorKind::InvalidValue),
    }
}

fn read_listen(v: Option<&Value>) -> (r: Result<Listen, SchemaErrorKind>)
    ensures
        r matches Ok(l) ==> uri_field(value_opt(v)) == Ok::<UriPair, SchemaErrorKind>(l@),
        r matches Err(k) ==> uri_field(value_opt(v)) == Err::<UriPair, SchemaErrorKind>(k),
{
    match v {
        None => Err(SchemaErrorKind::MissingField),
        Some(Value::Record(rec)) => match Listen::from_record(rec) {
            Some(l) => Ok(l),
            None => Err(SchemaErrorKind::InvalidValue),
        },
        Some(_) => Err(SchemaErrorKind::InvalidValue),
    }
}

fn read_watchdog(v: Option<&Value>) -> (r: Result<watchdog::Settings, SchemaErrorKind>)
    ensures
        r == watchdog_field(value_opt(v)),
{
    match v {
        None => Ok(watchdog::Settings::default()),
        Some(Value::Record(rec)) => match watchdog::Settings::from_record(rec) {
            Some(w) => Ok(w),
            None => Err(SchemaErrorKind::InvalidValue),
        },
        Some(_) => Err(SchemaErrorKind::InvalidValue),
    }
}

fn read_endpoints(v: Option<&Value>, debug: bool) -> (r: Result<Endpoints, SchemaErrorKind>)
    ensures
        r matches Ok(e) ==> endpoints_field(value_opt(v), debug) == Ok::<
            Seq<(Seq<char>, Seq<char>)>,
            SchemaErrorKind,
        >(e@),
        r matches Err(k) ==> endpoints_field(value_opt(v), debug) == Err::<
            Seq<(Seq<char>, Seq<char>)>,
            SchemaErrorKind,
        >(k),
{
    if !debug {
        return Ok(Endpoints::default());
    }
    match v {
        None => Ok(Endpoints::default()),
        Some(Value::Record(rec)) => match Endpoints::from_record(rec) {
            Some(e) => Ok(e),
            None => Err(SchemaErrorKind::InvalidValue),
        },
        Some(_) => Err(SchemaErrorKind::InvalidValue),
    }
}

fn push_entry(entries: &mut Vec<(String, Value)>, key: &str, v: Value)
    ensures
        entries_view(final(entries)@) == entries_view(old(entries)@) + seq![(key@, v@)],
{
    entries.push((key.to_owned(), v));
    assert(entries_view(final(entries)@) =~= entries_view(old(entries)@) + seq![(key@, v@)]);
}

fn push_optional(entries: &mut Vec<(String, Value)>, key: &str, v: &Option<String>)
    ensures
        entries_view(final(entries)@) == entries_view(old(entries)@) + optional_entry(
            key@,
            opt_view(*v),
        ),
{
    match v {
        Some(t) => push_entry(entries, key, Value::Text(t.clone())),
        None => {
            assert(entries_view(old(entries)@) + optional_entry(key@, opt_view(*v))
                =~= entries_view(old(entries)@));
        },
    }
}

impl<T: ModuleConfigText + Clone> Settings<T> {
    /// Writes these settings as a configuration document: absent optional fields are left
    /// out, and the endpoints are never written.
    pub fn to_document(&self) -> (r: Document)
        ensures
            r@ == document_of(self@),
    {
        let mut entries: Vec<(String, Value)> = Vec::new();
        assert(entries_view(entries@) =~= Seq::empty());
        push_entry(&mut entries, "hostname", Value::Text(self.hostname.clone()));
        push_optional(&mut entries, "edge_ca_cert", &self.edge_ca_cert);
        push_optional(&mut entries, "edge_ca_key", &self.edge_ca_key);
        push_optional(&mut entries, "trust_bundle_cert", &self.trust_bundle_cert);
        push_optional(&mut entries, "manifest_trust_bundle_cert", &self.manifest_trust_bundle_cert);
        push_entry(&mut entries, "auto_reprovisioning_mode", self.auto_reprovisioning_mode.to_value());
        push_entry(&mut entries, "homedir", Value::Text(self.homedir.clone()));
        push_entry(&mut entries, "agent", Value::Record(self.agent.to_record()));
        push_entry(&mut entries, "connect", Value::Record(self.connect.to_record()));
        push_entry(&mut entries, "listen", Value::Record(self.listen.to_record()));
        push_entry(&mut entries, "watchdog", Value::Record(self.watchdog.to_record()));
        let r = Document { entries };
        assert(r@ =~= document_of(self@));
        r
    }

    /// Reads settings from a configuration document. Where `debug` is false, whatever the
    /// document holds under `endpoints` is ignored and the endpoints are empty.
    pub fn from_document(doc: &Document, debug: bool) -> (r: Result<Settings<T>, SchemaError>)
        ensures
            r matches Ok(s) ==> settings_of::<T>(doc@, debug) == Ok::<SettingsModel, SchemaError>(
                s@,
            ),
            r matches Err(e) ==> settings_of::<T>(doc@, debug) == Err::<SettingsModel, SchemaError>(
                e,
            ),
    {
        let hostname = match read_required_text(doc.get("hostname")) {
            Ok(t) => t,
            Err(kind) => return Err(SchemaError { field: Field::Hostname, kind }),
        };
        let edge_ca_cert = match read_optional_text(doc.get("edge_ca_cert")) {
            Ok(t) => t,
            Err(kind) => return Err(SchemaError { field: Field::EdgeCaCert, kind }),
        };
        let edge_ca_key = match read_optional_text(doc.get("edge_ca_key")) {
            Ok(t) => t,
            Err(kind) => return Err(SchemaError { field: Field::EdgeCaKey, kind }),
        };
        let trust_bundle_cert = match read_optional_text(doc.get("trust_bundle_cert")) {
            Ok(t) => t,
            Err(kind) => return Err(SchemaError { field: Field::TrustBundleCert, kind }),
        };
        let manifest_trust_bundle_cert = match read_optional_text(
            doc.get("manifest_trust_bundle_cert"),
        ) {
            Ok(t) => t,
            Err(kind) => return Err(SchemaError { field: Field::ManifestTrustBundleCert, kind }),
        };
        let auto_reprovisioning_mode = match read_mode(doc.get("auto_reprovisioning_mode")) {
            Ok(m) => m,
            Err(kind) => return Err(SchemaError { field: Field::AutoReprovisioningMode, kind }),
        };
        let homedir = match read_required_text(doc.get("homedir")) {
            Ok(t) => t,
            Err(kind) => return Err(SchemaError { field: Field::Homedir, kind }),
        };
        let agent = match read_agent::<T>(doc.get("agent")) {
            Ok(a) => a,
            Err(kind) => return Err(SchemaError { field: Field::Agent, kind }),
        };
        let connect = match read_connect(doc.get("connect")) {
            Ok(c) => c,
            Err(kind) => return Err(SchemaError { field: Field::Connect, kind }),
        };
        let listen = match read_listen(doc.get("listen")) {
            Ok(l) => l,
            Err(kind) => return Err(SchemaError { field: Field::Listen, kind }),
        };
        let watchdog = match read_watchdog(doc.get("watchdog")) {
            Ok(w) => w,
            Err(kind) => return Err(SchemaError { field: Field::Watchdog, kind }),
        };
        let endpoints = match read_endpoints(doc.get("endpoints"), debug) {
            Ok(e) => e,
            Err(kind) => return Err(SchemaError { field: Field::Endpoints, kind }),
        };
        Ok(
            Settings {
                hostname,
                edge_ca_cert,
                edge_ca_key,
                trust_bundle_cert,
                manifest_trust_bundle_cert,
                auto_reprovisioning_mode,
                homedir,
                agent,
                connect,
                listen,
                watchdog,
                endpoints,
            },
        )
    }
}

} // verus!
