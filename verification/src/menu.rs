//! The menu in the tray.
use vstd::prelude::*;
use vstd::string::*;

use crate::text;
use crate::text::stripped;
use crate::translator::{Config, Model, ModelsConfig};

verus! {

/// What the user can switch on and off.
#[derive(Clone, Copy, PartialEq, Eq, Structural, Debug)]
pub struct Switches {
    /// Whether a selection is captured and translated.
    pub capture: bool,
    /// Whether the language model may be asked.
    pub llm: bool,
    /// Whether the popup stays above other windows.
    pub pinned: bool,
}

impl Switches {
    /// The switches as the program starts.
    pub fn initial() -> (r: Self)
        ensures
            r == (Switches { capture: true, llm: true, pinned: false }),
    {
        Switches { capture: true, llm: true, pinned: false }
    }
}

/// One model in the menu.
#[derive(Debug)]
pub struct ModelEntry {
    pub id: String,
    pub label: String,
}

/// One line of the menu.
#[derive(Debug)]
pub enum MenuEntry {
    /// A line that can be ticked.
    Check { id: &'static str, label: &'static str, checked: bool },
    /// The models, in a menu of their own.
    Models { label: &'static str, entries: Vec<ModelEntry> },
    Separator,
    Item { id: &'static str, label: &'static str },
}

/// The contents of a [`ModelEntry`].
pub struct ModelLine {
    pub id: Seq<char>,
    pub label: Seq<char>,
}

/// The contents of a [`MenuEntry`].
pub enum MenuLine {
    Check { id: Seq<char>, label: Seq<char>, checked: bool },
    Models { label: Seq<char>, entries: Seq<ModelLine> },
    Separator,
    Item { id: Seq<char>, label: Seq<char> },
}

impl View for ModelEntry {
    type V = ModelLine;

    open spec fn view(&self) -> ModelLine {
        ModelLine { id: self.id@, label: self.label@ }
    }
}

impl View for MenuEntry {
    type V = MenuLine;

    open spec fn view(&self) -> MenuLine {
        match *self {
            MenuEntry::Check { id, label, checked } => MenuLine::Check {
                id: id@,
                label: label@,
                checked,
            },
            MenuEntry::Models { label, entries } => MenuLine::Models {
                label: label@,
                entries: entries@.map_values(|e: ModelEntry| e@),
            },
            MenuEntry::Separator => MenuLine::Separator,
            MenuEntry::Item { id, label } => MenuLine::Item { id: id@, label: label@ },
        }
    }
}

/// The line of a model: its id behind a prefix, its name behind a tick if it
/// is the one in use, else behind blanks.
pub open spec fn model_line(model: Model, active: Seq<char>) -> ModelLine {
    ModelLine {
        id: "model_"@ + model.id,
        label: (if model.id == active {
            "√ "@
        } else {
            "  "@
        }) + model.name,
    }
}

/// The lines of the menu.
pub open spec fn menu_lines(switches: Switches, config: Config) -> Seq<MenuLine> {
    seq![
        MenuLine::Check {
            id: "toggle_capture"@,
            label: "开启划词翻译"@,
            checked: switches.capture,
        },
        MenuLine::Check { id: "toggle_llm"@, label: "开启大模型翻译"@, checked: switches.llm },
        MenuLine::Check { id: "toggle_pin"@, label: "翻译窗口置顶"@, checked: switches.pinned },
        MenuLine::Models {
            label: "选择模型"@,
            entries: config.models.map_values(|m: Model| model_line(m, config.active_model)),
        },
        MenuLine::Separator,
        MenuLine::Item { id: "quit"@, label: "彻底退出"@ },
    ]
}

fn model_entries(config: &ModelsConfig) -> (r: Vec<ModelEntry>)
    ensures
        r@.map_values(|e: ModelEntry| e@) == config@.models.map_values(
            |m: Model| model_line(m, config@.active_model),
        ),
{
    let mut r: Vec<ModelEntry> = Vec::new();
    let mut i: usize = 0;
    while i < config.models.len()
        invariant
            i <= config.models.len(),
            r.len() == i,
            forall|j: int|
                0 <= j < i ==> (#[trigger] r@[j])@ == model_line(
                    config.models@[j]@,
                    config@.active_model,
                ),
        decreases config.models.len() - i,
    {
        let model = &config.models[i];
        let mut id: String = "model_".to_owned();
        id.append(model.id.as_str());
        let active: bool = text::same(model.id.as_str(), config.active_model.as_str());
        let mut label: String = if active {
            "√ ".to_owned()
        } else {
            "  ".to_owned()
        };
        label.append(model.name.as_str());
        r.push(ModelEntry { id, label });
        i = i + 1;
    }
    assert(r@.map_values(|e: ModelEntry| e@) =~= config@.models.map_values(
        |m: Model| model_line(m, config@.active_model),
    ));
    r
}

/// The menu for the switches and the configuration as they are.
pub fn build_tray_menu(
    is_capture_enabled: bool,
    is_llm_enabled: bool,
    is_pinned: bool,
    config: &ModelsConfig,
) -> (r: Vec<MenuEntry>)
    ensures
        r@.map_values(|e: MenuEntry| e@) == menu_lines(
            Switches { capture: is_capture_enabled, llm: is_llm_enabled, pinned: is_pinned },
            config@,
        ),
{
    let entries: Vec<ModelEntry> = model_entries(config);
    let r: Vec<MenuEntry> = vec![
        MenuEntry::Check {
            id: "toggle_capture",
            label: "开启划词翻译",
            checked: is_capture_enabled,
        },
        MenuEntry::Check { id: "toggle_llm", label: "开启大模型翻译", checked: is_llm_enabled },
        MenuEntry::Check { id: "toggle_pin", label: "翻译窗口置顶", checked: is_pinned },
        MenuEntry::Models { label: "选择模型", entries },
        MenuEntry::Separator,
        MenuEntry::Item { id: "quit", label: "彻底退出" },
    ];
    assert(r@.map_values(|e: MenuEntry| e@) =~= menu_lines(
        Switches { capture: is_capture_enabled, llm: is_llm_enabled, pinned: is_pinned },
        config@,
    ));
    r
}

/// What a line of the menu asks for.
#[derive(Debug)]
pub enum MenuCommand {
    Quit,
    ToggleCapture,
    ToggleLlm,
    TogglePin,
    SelectModel(String),
    /// A line that asks for nothing.
    Ignore,
}

/// The contents of a [`MenuCommand`].
pub enum Choice {
    Quit,
    ToggleCapture,
    ToggleLlm,
    TogglePin,
    SelectModel(Seq<char>),
    Ignore,
}

impl View for MenuCommand {
    type V = Choice;

    open spec fn view(&self) -> Choice {
        match *self {
            MenuCommand::Quit => Choice::Quit,
            MenuCommand::ToggleCapture => Choice::ToggleCapture,
            MenuCommand::ToggleLlm => Choice::ToggleLlm,
            MenuCommand::TogglePin => Choice::TogglePin,
            MenuCommand::SelectModel(id) => Choice::SelectModel(id@),
            MenuCommand::Ignore => Choice::Ignore,
        }
    }
}

/// What the line with an id asks for. Of the id of a model's line the prefix
/// is taken off as often as it stands there.
pub open spec fn choice_of(id: Seq<char>) -> Choice {
    if id == "quit"@ {
        Choice::Quit
    } else if id == "toggle_capture"@ {
        Choice::ToggleCapture
    } else if id == "toggle_llm"@ {
        Choice::ToggleLlm
    } else if id == "toggle_pin"@ {
        Choice::TogglePin
    } else if "model_"@.is_prefix_of(id) {
        Choice::SelectModel(stripped(id, "model_"@))
    } else {
        Choice::Ignore
    }
}

/// What the line with that id asks for.
pub fn menu_command(id: &str) -> (r: MenuCommand)
    ensures
        r@ == choice_of(id@),
{
    if text::same(id, "quit") {
        MenuCommand::Quit
    } else if text::same(id, "toggle_capture") {
        MenuCommand::ToggleCapture
    } else if text::same(id, "toggle_llm") {
        MenuCommand::ToggleLlm
    } else if text::same(id, "toggle_pin") {
        MenuCommand::TogglePin
    } else if text::starts_with(id, "model_") {
        MenuCommand::SelectModel(text::strip_repeated(id, "model_"))
    } else {
        MenuCommand::Ignore
    }
}

/// Choosing the line of a model selects that model, provided that its id does
/// not itself begin with the prefix of the lines.
pub proof fn law_model_line_selects_model(model: Model, active: Seq<char>)
    requires
        !"model_"@.is_prefix_of(model.id),
    ensures
        choice_of(model_line(model, active).id) == Choice::SelectModel(model.id),
{
    reveal_strlit("model_");
    reveal_strlit("quit");
    reveal_strlit("toggle_capture");
    reveal_strlit("toggle_llm");
    reveal_strlit("toggle_pin");
    let id = "model_"@ + model.id;
    assert(id[0] == 'm');
    assert("model_"@ =~= id.subrange(0, 6));
    assert(id.skip(6) =~= model.id);
    reveal_with_fuel(stripped, 2);
}

/// In every menu each line asks for what it says: the three that can be
/// ticked for the switch that they show, the last for the end of the program.
pub proof fn law_menu_lines_ask(switches: Switches, config: Config)
    ensures
        ({
            let lines = menu_lines(switches, config);
            &&& lines.len() == 6
            &&& lines[0] matches MenuLine::Check { id, checked, .. } && choice_of(id)
                == Choice::ToggleCapture && checked == switches.capture
            &&& lines[1] matches MenuLine::Check { id, checked, .. } && choice_of(id)
                == Choice::ToggleLlm && checked == switches.llm
            &&& lines[2] matches MenuLine::Check { id, checked, .. } && choice_of(id)
                == Choice::TogglePin && checked == switches.pinned
            &&& lines[5] matches MenuLine::Item { id, .. } && choice_of(id) == Choice::Quit
        }),
{
    reveal_strlit("quit");
    reveal_strlit("toggle_capture");
    reveal_strlit("toggle_llm");
    reveal_strlit("toggle_pin");
    assert("quit"@.len() == 4);
    assert("toggle_capture"@.len() == 14);
    assert("toggle_llm"@.len() == 10);
    assert("toggle_pin"@.len() == 10);
    assert("toggle_llm"@[7] != "toggle_pin"@[7]);
}

/// Once a model is selected, the menu ticks its line, and no line of another
/// model.
pub proof fn law_selected_model_is_ticked(
    switches: Switches,
    config: Config,
    id: Seq<char>,
    at: int,
)
    requires
        0 <= at < config.models.len(),
    ensures
        ({
            let lines = menu_lines(switches, Config { active_model: id, ..config });
            let model = config.models[at];
            lines[3] matches MenuLine::Models { entries, .. } && entries.len()
                == config.models.len() && entries[at].label == (if model.id == id {
                "√ "@
            } else {
                "  "@
            }) + model.name
        }),
{
}

/// The menu offers every model of the configuration, in its order, under a line
/// that shows its whole name behind two characters and that selects it.
pub proof fn law_menu_offers_every_model(switches: Switches, config: Config, at: int)
    requires
        0 <= at < config.models.len(),
    ensures
        menu_lines(switches, config)[3] matches MenuLine::Models { entries, .. } && {
            let model = config.models[at];
            &&& entries.len() == config.models.len()
            &&& entries[at].label.len() == 2 + model.name.len()
            &&& entries[at].label.skip(2) == model.name
            &&& entries[at].label[0] == '√' <==> model.id == config.active_model
            &&& !"model_"@.is_prefix_of(model.id) ==> choice_of(entries[at].id)
                == Choice::SelectModel(model.id)
        },
{
    reveal_strlit("√ ");
    reveal_strlit("  ");
    let model = config.models[at];
    let line = model_line(model, config.active_model);
    assert(line.label.skip(2) =~= model.name);
    if !"model_"@.is_prefix_of(model.id) {
        law_model_line_selects_model(model, config.active_model);
    }
}

/// The prefix of the lines of models counts once, however often an id begins
/// with it; and an id that begins with it selects a model, and no other does.
pub proof fn law_model_choices(id: Seq<char>)
    ensures
        choice_of(id) is SelectModel <==> "model_"@.is_prefix_of(id),
        "model_"@.is_prefix_of(id) ==> choice_of("model_"@ + id) == choice_of(id),
        choice_of(id) matches Choice::SelectModel(model) ==> !"model_"@.is_prefix_of(model),
{
    reveal_strlit("model_");
    reveal_strlit("quit");
    reveal_strlit("toggle_capture");
    reveal_strlit("toggle_llm");
    reveal_strlit("toggle_pin");
    let longer = "model_"@ + id;
    assert(longer.subrange(0, 6) =~= "model_"@);
    assert(longer[0] == 'm');
    if "model_"@.is_prefix_of(id) {
        assert(id[0] == id.subrange(0, 6)[0]);
    }
    text::law_strip_repeated(id, "model_"@);
    lemma_stripped_has_no_prefix(id, "model_"@);
}

proof fn lemma_stripped_has_no_prefix(s: Seq<char>, prefix: Seq<char>)
    requires
        prefix.len() > 0,
    ensures
        !prefix.is_prefix_of(stripped(s, prefix)),
    decreases s.len(),
{
    if prefix.is_prefix_of(s) {
        lemma_stripped_has_no_prefix(s.skip(prefix.len() as int), prefix);
    }
}

/// The ids of the other lines ask for their own thing, and every id that is
/// neither one of them nor a model's asks for nothing.
pub proof fn law_other_choices(id: Seq<char>)
    ensures
        choice_of(id) is Quit <==> id == "quit"@,
        choice_of(id) is ToggleCapture <==> id == "toggle_capture"@,
        choice_of(id) is ToggleLlm <==> id == "toggle_llm"@,
        choice_of(id) is TogglePin <==> id == "toggle_pin"@,
{
    reveal_strlit("quit");
    reveal_strlit("toggle_capture");
    reveal_strlit("toggle_llm");
    reveal_strlit("toggle_pin");
    assert("quit"@.len() == 4);
    assert("toggle_capture"@.len() == 14);
    assert("toggle_llm"@.len() == 10);
    assert("toggle_pin"@.len() == 10);
    assert("toggle_llm"@[7] != "toggle_pin"@[7]);
}

} // verus!
