use vstd::prelude::*;

use crate::document::{entries_view, lemma_find_first, text_entry, text_in, Scalar, ScalarModel};

verus! {

/// A deployment backend's module configuration, written in a document as text.
pub trait ModuleConfigText: Sized {
    /// The text that a configuration is written as.
    spec fn text(&self) -> Seq<char>;

    fn to_text(&self) -> (r: String)
        ensures
            r@ == self.text(),
    ;

    /// Reads a configuration back; it succeeds exactly on the texts that some configuration is written as.
    fn from_text(s: &String) -> (r: Option<Self>)
        ensures
            r matches Some(x) ==> x.text() == s@,
            r is None ==> forall|x: Self| #[trigger] x.text() != s@,
    ;
}

/// Whether some configuration of type `T` is written as `t`.
pub open spec fn is_config_text<T: ModuleConfigText>(t: Seq<char>) -> bool {
    exists|x: T| #[trigger] x.text() == t
}

/// A configuration held as the text itself.
impl ModuleConfigText for String {
    open spec fn text(&self) -> Seq<char> {
        self@
    }

    fn to_text(&self) -> (r: String) {
        self.clone()
    }

    fn from_text(s: &String) -> (r: Option<String>) {
        Some(s.clone())
    }
}

/// The settings of the agent module: its name, its runtime type and its configuration.
#[derive(Clone, Debug, PartialEq, Eq)]
pub struct Settings<ModuleConfig> {
    pub name: String,
    pub type_: String,
    pub config: ModuleConfig,
}

/// What module settings hold, with the configuration taken by its text.
pub struct ModuleModel {
    pub name: Seq<char>,
    pub type_: Seq<char>,
    pub config: Seq<char>,
}

impl<T: ModuleConfigText> View for Settings<T> {
    type V = ModuleModel;

    open spec fn view(&self) -> ModuleModel {
        ModuleModel { name: self.name@, type_: self.type_@, config: self.config.text() }
    }
}

/// The module settings that a record describes: `name`, `type` and `config` hold text,
/// and the text under `config` is one that some configuration of type `T` is written as.
pub open spec fn module_of<T: ModuleConfigText>(rec: Seq<(Seq<char>, ScalarModel)>) -> Option<
    ModuleModel,
> {
    match (text_in(rec, "name"@), text_in(rec, "type"@), text_in(rec, "config"@)) {
        (Some(n), Some(t), Some(c)) => if is_config_text::<T>(c) {
            Some(ModuleModel { name: n, type_: t, config: c })
        } else {
            None
        },
        _ => None,
    }
}

/// The record that module settings are written as.
pub open spec fn module_record(m: ModuleModel) -> Seq<(Seq<char>, ScalarModel)> {
    seq![
        ("name"@, ScalarModel::Text(m.name)),
        ("type"@, ScalarModel::Text(m.type_)),
        ("config"@, ScalarModel::Text(m.config)),
    ]
}

/// Module settings written as a record read back as the same settings, where the
/// configuration's text is one that `T` reads.
pub proof fn lemma_module_round_trip<T: ModuleConfigText>(m: ModuleModel)
    requires
        is_config_text::<T>(m.config),
    ensures
        module_of::<T>(module_record(m)) == Some(m),
{
    reveal_strlit("name");
    reveal_strlit("type");
    reveal_strlit("config");
    let rec = module_record(m);
    assert("name"@[0] != "type"@[0]);
    assert("name"@.len() != "config"@.len());
    assert("type"@.len() != "config"@.len());
    lemma_find_first(rec, "name"@, 0);
    lemma_find_first(rec, "type"@, 1);
    lemma_find_first(rec, "config"@, 2);
}

impl<T: ModuleConfigText> Settings<T> {
    /// Reads module settings from their record.
    pub fn from_record(rec: &Vec<(String, Scalar)>) -> (r: Option<Settings<T>>)
        ensures
            r matches Some(m) ==> module_of::<T>(entries_view(rec@)) == Some(m@),
            r is None ==> module_of::<T>(entries_view(rec@)) is None,
    {
        let name = text_entry(rec, &"name".to_owned());
        let type_ = text_entry(rec, &"type".to_owned());
        let config = text_entry(rec, &"config".to_owned());
        match (name, type_, config) {
            (Some(name), Some(type_), Some(text)) => match T::from_text(&text) {
                Some(config) => Some(Settings { name, type_, config }),
                None => None,
            },
            _ => None,
        }
    }

    /// Writes these module settings as a record.
    pub fn to_record(&self) -> (r: Vec<(String, Scalar)>)
        ensures
            entries_view(r@) == module_record(self@),
    {
        let mut r: Vec<(String, Scalar)> = Vec::new();
        r.push(("name".to_owned(), Scalar::Text(self.name.clone())));
        r.push(("type".to_owned(), Scalar::Text(self.type_.clone())));
        r.push(("config".to_owned(), Scalar::Text(self.config.to_text())));
        assert(entries_view(r@) =~= module_record(self@));
        r
    }
}

} // verus!
