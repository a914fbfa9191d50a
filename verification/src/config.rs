//! The application's settings: which models are configured, which model
//! each interaction mode uses, and the construction of a backend from a
//! model entry selected by name.
//!
//! Reading and writing the settings file is the caller's work; the
//! structures here hold the settings as plain values, and the functions
//! decide everything that follows from them.

use vstd::prelude::*;

use crate::gpt_client::{ConfigValue, GptClient, GptConfigInput};

verus! {

/// The application identity recorded in the settings file.
#[derive(Debug)]
pub struct Application {
    pub name: String,
    pub version: String,
}

/// One configured model: its identifier, its provider name, and its
/// provider-specific configuration.
#[derive(Debug)]
pub struct ModelConfig {
    pub id: String,
    pub name: String,
    pub config: GptConfigInput,
}

/// One configured model, as the application-wide settings hold it.
#[derive(Debug)]
pub struct Model {
    pub id: String,
    pub name: String,
    pub config: GptConfigInput,
}

/// One interaction mode's selection: the identifier of the model it uses.
#[derive(Debug)]
pub struct Mode {
    pub id: String,
}

/// The model selection of every interaction mode.
#[derive(Debug)]
pub struct InteractionModes {
    pub completion: Mode,
    pub chat: Mode,
}

/// The model selection of every interaction mode, as the application-wide
/// settings hold it.
#[derive(Debug)]
pub struct Modes {
    pub completion: Mode,
    pub chat: Mode,
}

/// The user's settings.
#[derive(Debug)]
pub struct SettingsConfig {
    pub application: Application,
    pub models: Vec<ModelConfig>,
    pub modes: InteractionModes,
}

/// The application-wide settings.
#[derive(Debug)]
pub struct Config {
    pub application: Application,
    pub models: Vec<Model>,
    pub modes: Modes,
}

/// An interaction mode of the program.
#[derive(Clone, Copy, Debug, PartialEq, Eq, Structural)]
pub enum ModeSelection {
    Completion,
    Chat,
}

/// The model identifier that the settings select for a mode.
pub open spec fn spec_mode_id(config: &SettingsConfig, mode: ModeSelection) -> Seq<char> {
    match mode {
        ModeSelection::Completion => config.modes.completion.id@,
        ModeSelection::Chat => config.modes.chat.id@,
    }
}

fn get_mode_id_by_name(config: &SettingsConfig, mode: ModeSelection) -> (r: Option<String>)
    ensures
        r matches Some(id) && id@ == spec_mode_id(config, mode),
{
    let res = match mode {
        ModeSelection::Completion => config.modes.completion.id.clone(),
        ModeSelection::Chat => config.modes.chat.id.clone(),
    };
    Option::Some(res)
}

/// The model entry that a mode selects: the first configured model whose
/// identifier equals the mode's selection, or nothing when no model
/// matches.
pub fn get_model_by_mode(config: &SettingsConfig, mode: ModeSelection) -> (r: Option<
    &ModelConfig,
>)
    ensures
        (r is None) <==> (forall|i: int|
            0 <= i < config.models@.len() ==> config.models@[i].id@ != spec_mode_id(config, mode)),
        r matches Some(m) ==> (exists|i: int|
            {
                &&& 0 <= i < config.models@.len()
                &&& *m == config.models@[i]
                &&& config.models@[i].id@ == spec_mode_id(config, mode)
                &&& forall|j: int|
                    0 <= j < i ==> config.models@[j].id@ != spec_mode_id(config, mode)
            }),
{
    let mode_id_opt = get_mode_id_by_name(config, mode);
    let mode_id = match mode_id_opt {
        Some(id) => id,
        None => {
            return None;
        },
    };
    let n = config.models.len();
    let mut i: usize = 0;
    while i < n
        invariant
            i <= n,
            n == config.models@.len(),
            mode_id@ == spec_mode_id(config, mode),
            forall|j: int| 0 <= j < i ==> config.models@[j].id@ != spec_mode_id(config, mode),
        decreases n - i,
    {
        if config.models[i].id == mode_id {
            let found = &config.models[i];
            proof {
                let witness = i as int;
                assert({
                    &&& 0 <= witness < config.models@.len()
                    &&& *found == config.models@[witness]
                    &&& config.models@[witness].id@ == spec_mode_id(config, mode)
                    &&& forall|j: int|
                        0 <= j < witness ==> config.models@[j].id@ != spec_mode_id(config, mode)
                });
            }
            return Some(found);
        }
        i = i + 1;
    }
    None
}

/// Why a backend could not be built for a model entry.
#[derive(Clone, Copy, Debug, PartialEq, Eq, Structural)]
pub enum CreateModelError {
    /// The entry names a provider this program does not support.
    UnsupportedModelName,
}

/// Build the backend that a model entry names.  The one supported provider
/// name is `ChatGPT`; it succeeds on exactly that name and resolves the
/// entry's configuration, and every other name is an unsupported-backend
/// error.
pub fn create_chat_model(c_model: &Model) -> (r: Result<GptClient, CreateModelError>)
    ensures
        (c_model.name@ == "ChatGPT"@) <==> (r is Ok),
        r matches Ok(client) ==> {
            &&& client.config.max_tokens == crate::gpt_client::spec_coerce_uint(
                c_model.config.max_tokens,
                crate::gpt_client::DEFAULT_MAX_TOKENS as u64,
                0xFFFF,
            ).0
            &&& client.config.n == crate::gpt_client::spec_coerce_uint(
                c_model.config.n,
                crate::gpt_client::DEFAULT_SAMPLE_COUNT as u64,
                0xFF,
            ).0
            &&& client.config.model@ == crate::gpt_client::spec_coerce_text(
                c_model.config.model,
                crate::gpt_client::DEFAULT_MODEL@,
            ).0
            &&& client.config.temperature == c_model.config.temperature
        },
        r matches Err(e) ==> e == CreateModelError::UnsupportedModelName,
{
    let supported = String::from_str("ChatGPT");
    if c_model.name == supported {
        let config = c_model.config.clone();
        Ok(GptClient::new(config))
    } else {
        Err(CreateModelError::UnsupportedModelName)
    }
}

/// The settings that a fresh installation starts with: one ChatGPT model,
/// selected for both interaction modes.
pub fn settings_setup() -> (r: SettingsConfig)
    ensures
        r.application.name@ == "k-aiti"@,
        r.application.version@ == "0.0.1"@,
        r.models@.len() == 1,
        r.models@[0].id@ == "chatgpt"@,
        r.models@[0].name@ == "ChatGPT"@,
        r.models@[0].config.max_tokens == ConfigValue::UInt(100),
        r.models@[0].config.n == ConfigValue::UInt(1),
        r.models@[0].config.temperature matches ConfigValue::Decimal(t) && t@ == "0.9"@,
        r.models@[0].config.model matches ConfigValue::Text(m) && m@ == "gpt-3.5-turbo"@,
        r.modes.completion.id@ == "chatgpt"@,
        r.modes.chat.id@ == "chatgpt"@,
{
    let gpt = GptConfigInput {
        max_tokens: ConfigValue::UInt(100),
        n: ConfigValue::UInt(1),
        temperature: ConfigValue::Decimal(String::from_str("0.9")),
        model: ConfigValue::Text(String::from_str("gpt-3.5-turbo")),
    };
    let model = ModelConfig {
        id: String::from_str("chatgpt"),
        name: String::from_str("ChatGPT"),
        config: gpt,
    };
    let mut models: Vec<ModelConfig> = Vec::new();
    models.push(model);
    SettingsConfig {
        application: Application {
            name: String::from_str("k-aiti"),
            version: String::from_str("0.0.1"),
        },
        models,
        modes: InteractionModes {
            completion: Mode { id: String::from_str("chatgpt") },
            chat: Mode { id: String::from_str("chatgpt") },
        },
    }
}

} // verus!
