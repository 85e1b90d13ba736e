//! Translation results and the configuration of the translation service.
use vstd::prelude::*;

verus! {

/// The text of an optional string.
pub open spec fn text_of(s: Option<String>) -> Option<Seq<char>> {
    match s {
        Some(s) => Some(s@),
        None => None,
    }
}

/// What a translation came to.
#[derive(Debug)]
pub struct TranslateResult {
    /// The text that was to be translated.
    pub source_text: String,
    /// Its pronunciation, where the dictionary has one.
    pub phonetic: Option<String>,
    /// The translation, or the message of an error.
    pub translation: String,
    /// Whether the language model was asked, not the dictionary.
    pub is_llm: bool,
    /// Whether the translation failed.
    pub is_error: bool,
}

/// The contents of a [`TranslateResult`].
pub struct Outcome {
    pub source: Seq<char>,
    pub phonetic: Option<Seq<char>>,
    pub translation: Seq<char>,
    pub is_llm: bool,
    pub is_error: bool,
}

impl View for TranslateResult {
    type V = Outcome;

    open spec fn view(&self) -> Outcome {
        Outcome {
            source: self.source_text@,
            phonetic: text_of(self.phonetic),
            translation: self.translation@,
            is_llm: self.is_llm,
            is_error: self.is_error,
        }
    }
}

/// The contents of an optional result.
pub open spec fn outcome_of(r: Option<TranslateResult>) -> Option<Outcome> {
    match r {
        Some(r) => Some(r@),
        None => None,
    }
}

/// The failure of the language model on `source`, with its message.
pub open spec fn failure(source: Seq<char>, message: Seq<char>) -> Outcome {
    Outcome { source, phonetic: None, translation: message, is_llm: true, is_error: true }
}

impl Clone for TranslateResult {
    fn clone(&self) -> (r: Self)
        ensures
            r@ == self@,
    {
        TranslateResult {
            source_text: self.source_text.clone(),
            phonetic: match &self.phonetic {
                Some(p) => Some(p.clone()),
                None => None,
            },
            translation: self.translation.clone(),
            is_llm: self.is_llm,
            is_error: self.is_error,
        }
    }
}

impl TranslateResult {
    /// The failure of the language model to translate `source_text`.
    pub fn error(source_text: &str, message: String) -> (r: Self)
        ensures
            r@ == failure(source_text@, message@),
    {
        TranslateResult {
            source_text: source_text.to_owned(),
            phonetic: None,
            translation: message,
            is_llm: true,
            is_error: true,
        }
    }
}

/// One model that the user can choose.
#[derive(Debug)]
pub struct ModelItem {
    pub id: String,
    pub name: String,
}

/// The contents of a [`ModelItem`].
pub struct Model {
    pub id: Seq<char>,
    pub name: Seq<char>,
}

impl View for ModelItem {
    type V = Model;

    open spec fn view(&self) -> Model {
        Model { id: self.id@, name: self.name@ }
    }
}

/// The translation service and the models that it offers.
#[derive(Debug)]
pub struct ModelsConfig {
    pub active_model: String,
    pub api_endpoint: String,
    /// The environment variable that holds the key of the service.
    pub api_key_env_var: String,
    pub models: Vec<ModelItem>,
}

/// The contents of a [`ModelsConfig`].
pub struct Config {
    pub active_model: Seq<char>,
    pub api_endpoint: Seq<char>,
    pub api_key_env_var: Seq<char>,
    pub models: Seq<Model>,
}

impl View for ModelsConfig {
    type V = Config;

    open spec fn view(&self) -> Config {
        Config {
            active_model: self.active_model@,
            api_endpoint: self.api_endpoint@,
            api_key_env_var: self.api_key_env_var@,
            models: self.models@.map_values(|m: ModelItem| m@),
        }
    }
}

impl Clone for ModelItem {
    fn clone(&self) -> (r: Self)
        ensures
            r@ == self@,
    {
        ModelItem { id: self.id.clone(), name: self.name.clone() }
    }
}

impl Clone for ModelsConfig {
    fn clone(&self) -> (r: Self)
        ensures
            r@ == self@,
    {
        let mut models: Vec<ModelItem> = Vec::new();
        let mut i: usize = 0;
        while i < self.models.len()
            invariant
                i <= self.models.len(),
                models.len() == i,
                forall|j: int| 0 <= j < i ==> (#[trigger] models@[j])@ == self.models@[j]@,
            decreases self.models.len() - i,
        {
            models.push(self.models[i].clone());
            i = i + 1;
        }
        let r = ModelsConfig {
            active_model: self.active_model.clone(),
            api_endpoint: self.api_endpoint.clone(),
            api_key_env_var: self.api_key_env_var.clone(),
            models,
        };
        assert(r@.models =~= self@.models);
        r
    }
}

/// The configuration that holds while no other was stored.
pub open spec fn default_config() -> Config {
    Config {
        active_model: "tencent/Hunyuan-MT-7B"@,
        api_endpoint: "https://api.siliconflow.cn/v1/chat/completions"@,
        api_key_env_var: "SILICONFLOW_API_KEY"@,
        models: Seq::empty(),
    }
}

impl ModelsConfig {
    /// The stored configuration where one could be read and understood, else
    /// the default.
    pub fn load(stored: Option<ModelsConfig>) -> (r: Self)
        ensures
            stored matches Some(config) ==> r == config,
            stored is None ==> r@ == default_config(),
    {
        match stored {
            Some(config) => config,
            None => {
                let r = ModelsConfig {
                    active_model: "tencent/Hunyuan-MT-7B".to_owned(),
                    api_endpoint: "https://api.siliconflow.cn/v1/chat/completions".to_owned(),
                    api_key_env_var: "SILICONFLOW_API_KEY".to_owned(),
                    models: Vec::new(),
                };
                assert(r@.models =~= Seq::empty());
                r
            },
        }
    }

    /// Makes `id` the model in use; all else stays.
    pub fn select(&mut self, id: String)
        ensures
            final(self)@ == (Config { active_model: id@, ..old(self)@ }),
    {
        self.active_model = id;
    }
}

/// Results with the same contents agree in every field, and so do settings.
pub proof fn law_contents_are_complete(
    a: TranslateResult,
    b: TranslateResult,
    c: ModelsConfig,
    d: ModelsConfig,
)
    ensures
        a@ == b@ ==> {
            &&& a.source_text@ == b.source_text@
            &&& a.translation@ == b.translation@
            &&& a.phonetic is Some <==> b.phonetic is Some
            &&& a.phonetic is Some ==> a.phonetic->0@ == b.phonetic->0@
            &&& a.is_llm == b.is_llm
            &&& a.is_error == b.is_error
        },
        c@ == d@ ==> {
            &&& c.active_model@ == d.active_model@
            &&& c.api_endpoint@ == d.api_endpoint@
            &&& c.api_key_env_var@ == d.api_key_env_var@
            &&& c.models.len() == d.models.len()
            &&& forall|i: int|
                0 <= i < c.models.len() ==> #[trigger] c.models@[i].id@ == d.models@[i].id@
                    && c.models@[i].name@ == d.models@[i].name@
        },
{
    if c@ == d@ {
        assert(c@.models.len() == c.models.len());
        assert(d@.models.len() == d.models.len());
        assert forall|i: int| 0 <= i < c.models.len() implies #[trigger] c.models@[i].id@
            == d.models@[i].id@ && c.models@[i].name@ == d.models@[i].name@ by {
            assert(c@.models[i] == c.models@[i]@);
            assert(d@.models[i] == d.models@[i]@);
        }
    }
}

/// A failure is about the text that was to be translated, in the words of its
/// message, and is marked as one.
pub proof fn law_failure_says_why(source: Seq<char>, message: Seq<char>)
    ensures
        failure(source, message).source == source,
        failure(source, message).translation == message,
        failure(source, message).phonetic is None,
        failure(source, message).is_error,
{
}

} // verus!
