//! The popup window: when it is shown, raised, placed and put away.
use vstd::prelude::*;

use crate::layout::{popup_size, popup_size_for_result, PopupSize};
use crate::menu::{choice_of, menu_command, Choice, MenuCommand, Switches};
use crate::translator::{outcome_of, Outcome, TranslateResult};

verus! {

/// The pause after which the window looks for events again, in milliseconds.
pub const REFRESH_MS: u64 = 100;

/// `std::time::Instant`, carried through without a look inside.
#[verifier::external_type_specification]
#[verifier::external_body]
pub struct ExInstant(std::time::Instant);

/// What the window shares with those that look for selections.
pub struct SharedState {
    pub current_result: Option<TranslateResult>,
    pub is_window_visible: bool,
    /// Where the mouse was when the result came, until the window is placed.
    pub pending_pos: Option<(i32, i32)>,
    pub shown_at: Option<std::time::Instant>,
}

/// The contents of a [`SharedState`].
pub struct Shared {
    pub current: Option<Outcome>,
    pub visible: bool,
    pub pending: Option<(i32, i32)>,
    pub shown_at: Option<std::time::Instant>,
}

impl View for SharedState {
    type V = Shared;

    open spec fn view(&self) -> Shared {
        Shared {
            current: outcome_of(self.current_result),
            visible: self.is_window_visible,
            pending: self.pending_pos,
            shown_at: self.shown_at,
        }
    }
}

/// The shared state once a result is to be shown for a mouse at `(x, y)`.
pub open spec fn showing(result: Outcome, x: i32, y: i32, now: std::time::Instant) -> Shared {
    Shared { current: Some(result), visible: true, pending: Some((x, y)), shown_at: Some(now) }
}

impl SharedState {
    /// Nothing to show.
    pub fn new() -> (r: Self)
        ensures
            r@ == (Shared { current: None, visible: false, pending: None, shown_at: None }),
    {
        SharedState {
            current_result: None,
            is_window_visible: false,
            pending_pos: None,
            shown_at: None,
        }
    }

    /// Has a result shown for a mouse at `(x, y)`.
    pub fn show_result_window(
        &mut self,
        result: TranslateResult,
        x: i32,
        y: i32,
        now: std::time::Instant,
    )
        ensures
            final(self)@ == showing(result@, x, y, now),
    {
        self.current_result = Some(result);
        self.is_window_visible = true;
        self.pending_pos = Some((x, y));
        self.shown_at = Some(now);
    }

    /// Has the window put away; what it showed is kept.
    pub fn put_away(&mut self)
        ensures
            final(self)@ == (Shared { visible: false, ..old(self)@ }),
    {
        self.is_window_visible = false;
    }
}

/// What is done to the window and its surroundings.
pub enum Effect {
    /// End the program at once.
    Quit,
    Notify { title: &'static str, body: &'static str },
    /// Build the menu anew, for the switches as they are now.
    RebuildMenu,
    /// Store the model as the one in use, and build the menu anew.
    SelectModel(String),
    /// Keep the window above others, or no longer.
    SetLevel { on_top: bool },
    HideFromTaskbar,
    /// Shrink the window to a point and move it off the screen.
    Park,
    Focus,
    /// Give the window a size and a place near the mouse.
    Place { x: i32, y: i32, size: PopupSize },
    /// Draw the card, and the result if there is one.
    Draw(Option<TranslateResult>),
    /// Look for events again after so many milliseconds.
    RefreshAfterMs(u64),
}

/// The contents of an [`Effect`].
pub enum Deed {
    Quit,
    Notify { title: Seq<char>, body: Seq<char> },
    RebuildMenu,
    SelectModel(Seq<char>),
    SetLevel { on_top: bool },
    HideFromTaskbar,
    Park,
    Focus,
    Place { x: i32, y: i32, size: PopupSize },
    Draw(Option<Outcome>),
    RefreshAfterMs(u64),
}

impl View for Effect {
    type V = Deed;

    open spec fn view(&self) -> Deed {
        match *self {
            Effect::Quit => Deed::Quit,
            Effect::Notify { title, body } => Deed::Notify { title: title@, body: body@ },
            Effect::RebuildMenu => Deed::RebuildMenu,
            Effect::SelectModel(id) => Deed::SelectModel(id@),
            Effect::SetLevel { on_top } => Deed::SetLevel { on_top },
            Effect::HideFromTaskbar => Deed::HideFromTaskbar,
            Effect::Park => Deed::Park,
            Effect::Focus => Deed::Focus,
            Effect::Place { x, y, size } => Deed::Place { x, y, size },
            Effect::Draw(r) => Deed::Draw(outcome_of(r)),
            Effect::RefreshAfterMs(ms) => Deed::RefreshAfterMs(ms),
        }
    }
}

/// The contents of a list of effects.
pub open spec fn deeds(effects: Seq<Effect>) -> Seq<Deed> {
    effects.map_values(|e: Effect| e@)
}

/// The window and the switches of the program.
#[derive(Clone, Copy, PartialEq, Eq, Structural, Debug)]
pub struct HoverDictApp {
    pub switches: Switches,
    /// Whether the window has not been drawn yet.
    pub is_first_frame: bool,
    /// Whether the window was visible when it was last drawn.
    pub last_visible: bool,
}

/// How a notice words the state of a switch.
pub open spec fn on_off(on: bool) -> Seq<char> {
    if on {
        "已开启"@
    } else {
        "已关闭"@
    }
}

/// What a choice in the menu does, the end of the program apart: the switches
/// afterwards, and the deeds.
pub open spec fn menu_part(app: HoverDictApp, choice: Choice) -> (HoverDictApp, Seq<Deed>) {
    let s = app.switches;
    match choice {
        Choice::ToggleCapture => (
            HoverDictApp { switches: Switches { capture: !s.capture, ..s }, ..app },
            seq![
                Deed::Notify { title: "划词翻译"@, body: on_off(!s.capture) },
                Deed::RebuildMenu,
            ],
        ),
        Choice::ToggleLlm => (
            HoverDictApp { switches: Switches { llm: !s.llm, ..s }, ..app },
            seq![
                Deed::Notify { title: "大模型翻译"@, body: on_off(!s.llm) },
                Deed::RebuildMenu,
            ],
        ),
        Choice::TogglePin => (
            HoverDictApp { switches: Switches { pinned: !s.pinned, ..s }, ..app },
            seq![
                Deed::Notify { title: "翻译窗口置顶"@, body: on_off(!s.pinned) },
                Deed::RebuildMenu,
            ] + (if app.last_visible {
                seq![Deed::SetLevel { on_top: !s.pinned }]
            } else {
                Seq::empty()
            }),
        ),
        Choice::SelectModel(id) => (app, seq![Deed::SelectModel(id)]),
        _ => (app, Seq::empty()),
    }
}

/// How the window is brought into the state that it should have.
pub open spec fn window_part(app: HoverDictApp, shared: Shared, visible: bool) -> Seq<Deed> {
    if visible {
        (if app.last_visible {
            Seq::empty()
        } else {
            seq![Deed::SetLevel { on_top: app.switches.pinned }, Deed::Focus]
        }) + (match shared.pending {
            Some((x, y)) => seq![Deed::Place { x, y, size: popup_size(shared.current) }],
            None => Seq::empty(),
        })
    } else if app.last_visible {
        seq![Deed::Park]
    } else {
        Seq::empty()
    }
}

/// Whether the window is visible after a frame: it was to be, and was not
/// put away with the escape key.
pub open spec fn visible_after(shared: Shared, escape: bool) -> bool {
    shared.visible && !escape
}

/// The deeds of a frame once the menu was served.
pub open spec fn frame_part(app: HoverDictApp, shared: Shared, escape: bool) -> Seq<Deed> {
    let visible = visible_after(shared, escape);
    let started = HoverDictApp { last_visible: app.last_visible && !app.is_first_frame, ..app };
    (if app.is_first_frame {
        seq![Deed::HideFromTaskbar, Deed::Park]
    } else {
        Seq::empty()
    }) + seq![Deed::HideFromTaskbar] + window_part(started, shared, visible) + (if visible {
        seq![Deed::Draw(shared.current)]
    } else {
        Seq::empty()
    }) + seq![Deed::RefreshAfterMs(REFRESH_MS)]
}

/// What a frame does: the state of the program and the shared state
/// afterwards, and the deeds in order.
pub open spec fn frame(
    app: HoverDictApp,
    shared: Shared,
    choice: Option<Choice>,
    escape: bool,
) -> (HoverDictApp, Shared, Seq<Deed>) {
    if choice == Some(Choice::Quit) {
        (app, shared, seq![Deed::Quit])
    } else {
        let (served, menu_deeds) = match choice {
            Some(choice) => menu_part(app, choice),
            None => (app, Seq::empty()),
        };
        (
            HoverDictApp {
                is_first_frame: false,
                last_visible: visible_after(shared, escape),
                ..served
            },
            Shared { visible: visible_after(shared, escape), pending: None, ..shared },
            menu_deeds + frame_part(served, shared, escape),
        )
    }
}

fn wording(on: bool) -> (r: &'static str)
    ensures
        r@ == on_off(on),
{
    if on {
        "已开启"
    } else {
        "已关闭"
    }
}

fn add_effect(effects: &mut Vec<Effect>, effect: Effect)
    ensures
        deeds(final(effects)@) == deeds(old(effects)@).push(effect@),
{
    effects.push(effect);
    assert(deeds(effects@) =~= deeds(old(effects)@).push(effect@));
}

fn clone_result(result: &Option<TranslateResult>) -> (r: Option<TranslateResult>)
    ensures
        outcome_of(r) == outcome_of(*result),
{
    match result {
        Some(result) => Some(result.clone()),
        None => None,
    }
}

/// What the line of the menu that was chosen, if any, asks for.
pub open spec fn choice_made(menu_id: Option<&str>) -> Option<Choice> {
    match menu_id {
        Some(id) => Some(choice_of(id@)),
        None => None,
    }
}

impl HoverDictApp {
    /// The program as it starts.
    pub fn new() -> (r: Self)
        ensures
            r == (HoverDictApp {
                switches: Switches { capture: true, llm: true, pinned: false },
                is_first_frame: true,
                last_visible: false,
            }),
    {
        HoverDictApp {
            switches: Switches::initial(),
            is_first_frame: true,
            last_visible: false,
        }
    }

    fn serve_menu(&mut self, command: MenuCommand) -> (r: Vec<Effect>)
        requires
            command@ != Choice::Quit,
        ensures
            (*final(self), deeds(r@)) == menu_part(*old(self), command@),
    {
        let mut r: Vec<Effect> = Vec::new();
        match command {
            MenuCommand::ToggleCapture => {
                self.switches.capture = !self.switches.capture;
                r.push(Effect::Notify { title: "划词翻译", body: wording(self.switches.capture) });
                r.push(Effect::RebuildMenu);
            },
            MenuCommand::ToggleLlm => {
                self.switches.llm = !self.switches.llm;
                r.push(Effect::Notify { title: "大模型翻译", body: wording(self.switches.llm) });
                r.push(Effect::RebuildMenu);
            },
            MenuCommand::TogglePin => {
                self.switches.pinned = !self.switches.pinned;
                r.push(
                    Effect::Notify { title: "翻译窗口置顶", body: wording(self.switches.pinned) },
                );
                r.push(Effect::RebuildMenu);
                if self.last_visible {
                    r.push(Effect::SetLevel { on_top: self.switches.pinned });
                }
            },
            MenuCommand::SelectModel(id) => {
                r.push(Effect::SelectModel(id));
            },
            _ => {},
        }
        assert(deeds(r@) =~= menu_part(*old(self), command@).1);
        r
    }

    /// Adds what brings the window into the state that it should have.
    fn settle(
        &self,
        effects: &mut Vec<Effect>,
        current: &Option<TranslateResult>,
        pending: Option<(i32, i32)>,
        visible: bool,
    )
        ensures
            forall|shared: Shared|
                shared.current == outcome_of(*current) && shared.pending == pending ==> deeds(
                    final(effects)@,
                ) == deeds(old(effects)@) + #[trigger] window_part(*self, shared, visible),
    {
        if visible {
            if !self.last_visible {
                add_effect(effects, Effect::SetLevel { on_top: self.switches.pinned });
                add_effect(effects, Effect::Focus);
            }
            if let Some((x, y)) = pending {
                let size: PopupSize = popup_size_for_result(current);
                add_effect(effects, Effect::Place { x, y, size });
            }
        } else if self.last_visible {
            add_effect(effects, Effect::Park);
        }
        assert forall|shared: Shared|
            shared.current == outcome_of(*current) && shared.pending == pending implies deeds(
            effects@,
        ) == deeds(old(effects)@) + #[trigger] window_part(*self, shared, visible) by {
            assert(deeds(effects@) =~= deeds(old(effects)@) + window_part(*self, shared, visible));
        }
    }

    /// The part of a frame that follows the menu.
    fn draw_frame(&mut self, shared: &mut SharedState, escape_pressed: bool) -> (r: Vec<Effect>)
        ensures
            deeds(r@) == frame_part(*old(self), old(shared)@, escape_pressed),
            *final(self) == (HoverDictApp {
                is_first_frame: false,
                last_visible: visible_after(old(shared)@, escape_pressed),
                ..*old(self)
            }),
            final(shared)@ == (Shared {
                visible: visible_after(old(shared)@, escape_pressed),
                pending: None,
                ..old(shared)@
            }),
    {
        let ghost shared_before = shared@;
        let ghost first: Seq<Deed> = if self.is_first_frame {
            seq![Deed::HideFromTaskbar, Deed::Park]
        } else {
            Seq::empty()
        };
        let mut r: Vec<Effect> = Vec::new();
        if self.is_first_frame {
            add_effect(&mut r, Effect::HideFromTaskbar);
            add_effect(&mut r, Effect::Park);
            self.is_first_frame = false;
            self.last_visible = false;
        }
        assert(deeds(r@) =~= first);
        add_effect(&mut r, Effect::HideFromTaskbar);
        assert(deeds(r@) =~= first + seq![Deed::HideFromTaskbar]);
        if shared.is_window_visible && escape_pressed {
            shared.put_away();
        }
        let visible: bool = shared.is_window_visible;
        let pending: Option<(i32, i32)> = shared.pending_pos.take();
        self.settle(&mut r, &shared.current_result, pending, visible);
        let ghost settled = deeds(r@);
        assert(settled == first + seq![Deed::HideFromTaskbar] + window_part(
            *self,
            shared_before,
            visible,
        ));
        let ghost drawn: Seq<Deed> = if visible {
            seq![Deed::Draw(shared_before.current)]
        } else {
            Seq::empty()
        };
        if visible {
            add_effect(&mut r, Effect::Draw(clone_result(&shared.current_result)));
        }
        assert(deeds(r@) =~= settled + drawn);
        self.last_visible = visible;
        add_effect(&mut r, Effect::RefreshAfterMs(REFRESH_MS));
        assert(deeds(r@) =~= settled + drawn + seq![Deed::RefreshAfterMs(REFRESH_MS)]);
        r
    }

    /// One frame: serves the line of the menu that was chosen, brings the
    /// window into the state that it should have, and draws it.
    pub fn update(
        &mut self,
        shared: &mut SharedState,
        menu_id: Option<&str>,
        escape_pressed: bool,
    ) -> (r: Vec<Effect>)
        ensures
            (*final(self), final(shared)@, deeds(r@)) == frame(
                *old(self),
                old(shared)@,
                choice_made(menu_id),
                escape_pressed,
            ),
    {
        let mut r: Vec<Effect> = Vec::new();
        match menu_id {
            Some(id) => match menu_command(id) {
                MenuCommand::Quit => {
                    add_effect(&mut r, Effect::Quit);
                    assert(deeds(r@) =~= seq![Deed::Quit]);
                    return r;
                },
                command => {
                    r = self.serve_menu(command);
                },
            },
            None => {
                assert(deeds(r@) =~= Seq::empty());
            },
        }
        let ghost menu_effects = r@;
        let mut rest: Vec<Effect> = self.draw_frame(shared, escape_pressed);
        let ghost frame_effects = rest@;
        r.append(&mut rest);
        assert(deeds(r@) =~= deeds(menu_effects) + deeds(frame_effects));
        r
    }
}

/// A result that was handed over is shown by the next frame: drawn, placed
/// near the mouse in the size that it needs, and, where the window was not
/// visible before, with the window raised to its level and focused.
pub proof fn law_result_is_shown(
    app: HoverDictApp,
    result: Outcome,
    x: i32,
    y: i32,
    now: std::time::Instant,
    choice: Option<Choice>,
)
    requires
        choice != Some(Choice::Quit),
    ensures
        ({
            let (after, shared, done) = frame(app, showing(result, x, y, now), choice, false);
            &&& done.contains(Deed::Place { x, y, size: popup_size(Some(result)) })
            &&& done.contains(Deed::Draw(Some(result)))
            &&& app.is_first_frame || !app.last_visible ==> done.contains(Deed::Focus)
                && done.contains(Deed::SetLevel { on_top: after.switches.pinned })
            &&& shared.visible && after.last_visible
        }),
{
    let shared = showing(result, x, y, now);
    let (served, menu_deeds) = match choice {
        Some(choice) => menu_part(app, choice),
        None => (app, Seq::empty()),
    };
    let done = frame(app, shared, choice, false).2;
    let started = HoverDictApp {
        last_visible: served.last_visible && !served.is_first_frame,
        ..served
    };
    let first: Seq<Deed> = if served.is_first_frame {
        seq![Deed::HideFromTaskbar, Deed::Park]
    } else {
        Seq::empty()
    };
    let part = window_part(started, shared, true);
    let at: int = 1 + menu_deeds.len() as int + first.len();
    assert(done =~= menu_deeds + first + seq![Deed::HideFromTaskbar] + part + seq![
        Deed::Draw(Some(result)),
        Deed::RefreshAfterMs(REFRESH_MS),
    ]);
    assert forall|i: int| 0 <= i < part.len() implies done[at + i] == #[trigger] part[i] by {}
    assert(part[part.len() - 1] == (Deed::Place { x, y, size: popup_size(Some(result)) }));
    assert(done[at + part.len() - 1] == part[part.len() - 1]);
    assert(done[at + part.len() as int] == Deed::Draw(Some(result)));
    if !started.last_visible {
        assert(part[0] == (Deed::SetLevel { on_top: served.switches.pinned }));
        assert(part[1] == Deed::Focus);
        assert(done[at + 0] == part[0]);
        assert(done[at + 1] == part[1]);
    }
}

/// A frame leaves the switches and the window in step: the window was last
/// drawn as it should be, the place for it is used up, and the frame was not
/// the first any more. What is shown is kept, and the next frame is asked for.
pub proof fn law_frame_settles(
    app: HoverDictApp,
    shared: Shared,
    choice: Option<Choice>,
    escape: bool,
)
    requires
        choice != Some(Choice::Quit),
    ensures
        ({
            let (app_after, after, done) = frame(app, shared, choice, escape);
            &&& app_after.last_visible == after.visible
            &&& !app_after.is_first_frame
            &&& after.pending is None
            &&& after.current == shared.current
            &&& after.shown_at == shared.shown_at
            &&& done.len() > 0 && done.last() == Deed::RefreshAfterMs(REFRESH_MS)
        }),
{
}

/// The escape key puts the window away, whatever is chosen in the menu: it is
/// not drawn, placed or focused by that frame, and it is moved off the screen
/// if it was there.
pub proof fn law_escape_puts_window_away(
    app: HoverDictApp,
    shared: Shared,
    choice: Option<Choice>,
)
    requires
        choice != Some(Choice::Quit),
    ensures
        ({
            let (app_after, after, done) = frame(app, shared, choice, true);
            &&& !after.visible
            &&& !app_after.last_visible
            &&& forall|i: int|
                0 <= i < done.len() ==> !(#[trigger] done[i] is Draw) && !(done[i] is Place) && !(
                done[i] is Focus)
            &&& app.last_visible ==> done.contains(Deed::Park)
        }),
{
    let (served, menu_deeds) = match choice {
        Some(choice) => menu_part(app, choice),
        None => (app, Seq::empty()),
    };
    let done = frame(app, shared, choice, true).2;
    let at = menu_deeds.len() as int;
    let rest = frame_part(served, shared, true);
    assert(done == menu_deeds + rest);
    if app.is_first_frame {
        assert(rest =~= seq![
            Deed::HideFromTaskbar,
            Deed::Park,
            Deed::HideFromTaskbar,
            Deed::RefreshAfterMs(REFRESH_MS),
        ]);
        assert(done[at + 1] == Deed::Park);
    } else if app.last_visible {
        assert(rest =~= seq![
            Deed::HideFromTaskbar,
            Deed::Park,
            Deed::RefreshAfterMs(REFRESH_MS),
        ]);
        assert(done[at + 1] == Deed::Park);
    } else {
        assert(rest =~= seq![Deed::HideFromTaskbar, Deed::RefreshAfterMs(REFRESH_MS)]);
    }
    assert forall|i: int| 0 <= i < done.len() implies !(#[trigger] done[i] is Draw) && !(
    done[i] is Place) && !(done[i] is Focus) by {
        if i < at {
            assert(done[i] == menu_deeds[i]);
        } else {
            assert(done[i] == rest[i - at]);
        }
    }
}

/// A frame in which nothing has happened changes nothing: a visible window is
/// drawn again where it is, a hidden one stays where it is.
pub proof fn law_idle_frame(app: HoverDictApp, shared: Shared)
    requires
        !app.is_first_frame,
        app.last_visible == shared.visible,
        shared.pending is None,
    ensures
        frame(app, shared, None, false) == (
            app,
            shared,
            if shared.visible {
                seq![
                    Deed::HideFromTaskbar,
                    Deed::Draw(shared.current),
                    Deed::RefreshAfterMs(REFRESH_MS),
                ]
            } else {
                seq![Deed::HideFromTaskbar, Deed::RefreshAfterMs(REFRESH_MS)]
            },
        ),
{
    let done = frame(app, shared, None, false).2;
    if shared.visible {
        assert(done =~= seq![
            Deed::HideFromTaskbar,
            Deed::Draw(shared.current),
            Deed::RefreshAfterMs(REFRESH_MS),
        ]);
    } else {
        assert(done =~= seq![Deed::HideFromTaskbar, Deed::RefreshAfterMs(REFRESH_MS)]);
    }
}

/// Choosing a switch a second time undoes it; no choice in the menu but a
/// switch changes the switches, and none changes the window.
pub proof fn law_switches(app: HoverDictApp, choice: Choice)
    ensures
        choice is ToggleCapture || choice is ToggleLlm || choice is TogglePin ==> menu_part(
            menu_part(app, choice).0,
            choice,
        ).0 == app && menu_part(app, choice).0 != app,
        !(choice is ToggleCapture || choice is ToggleLlm || choice is TogglePin) ==> menu_part(
            app,
            choice,
        ).0 == app,
        menu_part(app, choice).0.last_visible == app.last_visible,
        menu_part(app, choice).0.is_first_frame == app.is_first_frame,
{
}

/// Whether the window is above others after some deeds.
pub open spec fn on_top_after(on_top: bool, done: Seq<Deed>) -> bool
    decreases done.len(),
{
    if done.len() == 0 {
        on_top
    } else {
        match done.last() {
            Deed::SetLevel { on_top } => on_top,
            _ => on_top_after(on_top, done.drop_last()),
        }
    }
}

/// Whether the window is on the screen after some deeds.
pub open spec fn on_screen_after(on_screen: bool, done: Seq<Deed>) -> bool
    decreases done.len(),
{
    if done.len() == 0 {
        on_screen
    } else {
        match done.last() {
            Deed::Place { .. } => true,
            Deed::Park => false,
            _ => on_screen_after(on_screen, done.drop_last()),
        }
    }
}

proof fn lemma_after_concat(on: bool, a: Seq<Deed>, b: Seq<Deed>)
    ensures
        on_top_after(on, a + b) == on_top_after(on_top_after(on, a), b),
        on_screen_after(on, a + b) == on_screen_after(on_screen_after(on, a), b),
    decreases b.len(),
{
    if b.len() == 0 {
        assert(a + b =~= a);
    } else {
        assert((a + b).drop_last() =~= a + b.drop_last());
        lemma_after_concat(on, a, b.drop_last());
    }
}

proof fn lemma_after_one(on: bool, d: Deed)
    ensures
        on_top_after(on, seq![d]) == (match d {
            Deed::SetLevel { on_top } => on_top,
            _ => on,
        }),
        on_screen_after(on, seq![d]) == (match d {
            Deed::Place { .. } => true,
            Deed::Park => false,
            _ => on,
        }),
{
    reveal_with_fuel(on_top_after, 2);
    reveal_with_fuel(on_screen_after, 2);
}

proof fn lemma_after_two(on: bool, d: Deed, e: Deed)
    ensures
        on_top_after(on, seq![d, e]) == on_top_after(on_top_after(on, seq![d]), seq![e]),
        on_screen_after(on, seq![d, e]) == on_screen_after(on_screen_after(on, seq![d]), seq![e]),
{
    lemma_after_concat(on, seq![d], seq![e]);
    assert(seq![d] + seq![e] =~= seq![d, e]);
}

proof fn lemma_window_part_after(app: HoverDictApp, shared: Shared, visible: bool, on: bool)
    ensures
        on_top_after(on, window_part(app, shared, visible)) == (if visible && !app.last_visible {
            app.switches.pinned
        } else {
            on
        }),
        on_screen_after(on, window_part(app, shared, visible)) == (if visible {
            shared.pending is Some || on
        } else {
            on && !app.last_visible
        }),
{
    let raise = Deed::SetLevel { on_top: app.switches.pinned };
    let a: Seq<Deed> = if app.last_visible {
        Seq::empty()
    } else {
        seq![raise, Deed::Focus]
    };
    let b: Seq<Deed> = match shared.pending {
        Some((x, y)) => seq![Deed::Place { x, y, size: popup_size(shared.current) }],
        None => Seq::empty(),
    };
    if visible {
        lemma_after_concat(on, a, b);
        lemma_after_one(on, raise);
        lemma_after_one(on_top_after(on, seq![raise]), Deed::Focus);
        lemma_after_one(on_screen_after(on, seq![raise]), Deed::Focus);
        lemma_after_two(on, raise, Deed::Focus);
        if shared.pending is Some {
            lemma_after_one(on_top_after(on, a), b[0]);
            lemma_after_one(on_screen_after(on, a), b[0]);
        }
    } else {
        lemma_after_one(on, Deed::Park);
    }
}

proof fn lemma_menu_part_after(app: HoverDictApp, choice: Choice, on: bool)
    ensures
        on_top_after(on, menu_part(app, choice).1) == (if choice is TogglePin && app.last_visible {
            !app.switches.pinned
        } else {
            on
        }),
        on_screen_after(on, menu_part(app, choice).1) == on,
{
    let done = menu_part(app, choice).1;
    match choice {
        Choice::ToggleCapture | Choice::ToggleLlm => {
            lemma_after_two(on, done[0], done[1]);
            assert(done =~= seq![done[0], done[1]]);
            lemma_after_one(on, done[0]);
            lemma_after_one(on, done[1]);
        },
        Choice::TogglePin => {
            let pair = seq![done[0], done[1]];
            let level: Seq<Deed> = if app.last_visible {
                seq![Deed::SetLevel { on_top: !app.switches.pinned }]
            } else {
                Seq::empty()
            };
            assert(done =~= pair + level);
            lemma_after_concat(on, pair, level);
            lemma_after_two(on, done[0], done[1]);
            lemma_after_one(on, done[0]);
            lemma_after_one(on, done[1]);
            lemma_after_one(on, Deed::SetLevel { on_top: !app.switches.pinned });
        },
        Choice::SelectModel(id) => {
            lemma_after_one(on, done[0]);
        },
        _ => {},
    }
}

proof fn lemma_frame_part_after(app: HoverDictApp, shared: Shared, escape: bool, on: bool)
    ensures
        on_top_after(on, frame_part(app, shared, escape)) == (if visible_after(shared, escape)
            && !(app.last_visible && !app.is_first_frame) {
            app.switches.pinned
        } else {
            on
        }),
        on_screen_after(on, frame_part(app, shared, escape)) == (if visible_after(
            shared,
            escape,
        ) {
            shared.pending is Some || (on && !app.is_first_frame)
        } else {
            on && !app.is_first_frame && !app.last_visible
        }),
{
    let visible = visible_after(shared, escape);
    let started = HoverDictApp { last_visible: app.last_visible && !app.is_first_frame, ..app };
    let first: Seq<Deed> = if app.is_first_frame {
        seq![Deed::HideFromTaskbar, Deed::Park]
    } else {
        Seq::empty()
    };
    let off_bar = seq![Deed::HideFromTaskbar];
    let part = window_part(started, shared, visible);
    let drawn: Seq<Deed> = if visible {
        seq![Deed::Draw(shared.current)]
    } else {
        Seq::empty()
    };
    let again = seq![Deed::RefreshAfterMs(REFRESH_MS)];
    assert(frame_part(app, shared, escape) == first + off_bar + part + drawn + again);
    let now_on = on && !app.is_first_frame;
    assert(on_top_after(on, first) == on && on_screen_after(on, first) == now_on) by {
        lemma_after_two(on, Deed::HideFromTaskbar, Deed::Park);
        lemma_after_one(on, Deed::HideFromTaskbar);
        lemma_after_one(on, Deed::Park);
    }
    lemma_after_concat(on, first, off_bar);
    lemma_after_one(on, Deed::HideFromTaskbar);
    lemma_after_one(now_on, Deed::HideFromTaskbar);
    lemma_after_concat(on, first + off_bar, part);
    lemma_window_part_after(started, shared, visible, on);
    lemma_window_part_after(started, shared, visible, now_on);
    let top = on_top_after(on, part);
    let at = on_screen_after(now_on, part);
    lemma_after_concat(on, first + off_bar + part, drawn);
    lemma_after_one(top, Deed::Draw(shared.current));
    lemma_after_one(at, Deed::Draw(shared.current));
    lemma_after_concat(on, first + off_bar + part + drawn, again);
    lemma_after_one(top, Deed::RefreshAfterMs(REFRESH_MS));
    lemma_after_one(at, Deed::RefreshAfterMs(REFRESH_MS));
}

proof fn lemma_frame_after(
    app: HoverDictApp,
    shared: Shared,
    choice: Option<Choice>,
    escape: bool,
    on: bool,
)
    requires
        choice != Some(Choice::Quit),
    ensures
        ({
            let (after, _, done) = frame(app, shared, choice, escape);
            let visible = visible_after(shared, escape);
            &&& on_top_after(on, done) == if visible && !(app.last_visible
                && !app.is_first_frame) {
                after.switches.pinned
            } else if choice == Some(Choice::TogglePin) && app.last_visible {
                !app.switches.pinned
            } else {
                on
            }
            &&& on_screen_after(on, done) == if visible {
                shared.pending is Some || (on && !app.is_first_frame)
            } else {
                on && !app.is_first_frame && !app.last_visible
            }
        }),
{
    let (served, menu_deeds) = match choice {
        Some(choice) => menu_part(app, choice),
        None => (app, Seq::empty()),
    };
    if choice is Some {
        lemma_menu_part_after(app, choice->0, on);
        law_switches(app, choice->0);
    }
    lemma_after_concat(on, menu_deeds, frame_part(served, shared, escape));
    lemma_frame_part_after(served, shared, escape, on);
    lemma_frame_part_after(served, shared, escape, on_top_after(on, menu_deeds));
}

/// A visible window is above others exactly while it is pinned: if that held
/// before a frame, it holds after it, and a window that becomes visible makes
/// it hold.
pub proof fn law_level_follows_pin(
    app: HoverDictApp,
    shared: Shared,
    choice: Option<Choice>,
    escape: bool,
    on_top: bool,
)
    requires
        choice != Some(Choice::Quit),
        app.last_visible ==> on_top == app.switches.pinned,
    ensures
        ({
            let (after, _, done) = frame(app, shared, choice, escape);
            after.last_visible ==> on_top_after(on_top, done) == after.switches.pinned
        }),
{
    lemma_frame_after(app, shared, choice, escape, on_top);
}

/// What holds of the program, the shared state and the window between any two
/// events: a window that is to be visible has a place waiting for it or was
/// drawn on the screen, and a window on the screen was drawn or has yet to be
/// drawn for the first time.
pub open spec fn in_step(app: HoverDictApp, shared: Shared, on_screen: bool) -> bool {
    &&& shared.visible ==> shared.pending is Some || (on_screen && app.last_visible
        && !app.is_first_frame)
    &&& on_screen ==> app.last_visible || app.is_first_frame
}

/// After every frame the window is on the screen exactly if it is to be
/// visible, and the program, the shared state and the window are in step again.
pub proof fn law_on_screen_iff_visible(
    app: HoverDictApp,
    shared: Shared,
    choice: Option<Choice>,
    escape: bool,
    on_screen: bool,
)
    requires
        choice != Some(Choice::Quit),
        in_step(app, shared, on_screen),
    ensures
        ({
            let (app_after, after, done) = frame(app, shared, choice, escape);
            &&& on_screen_after(on_screen, done) == after.visible
            &&& in_step(app_after, after, on_screen_after(on_screen, done))
        }),
{
    lemma_frame_after(app, shared, choice, escape, on_screen);
}

/// The program starts in step, and showing a result, putting the window away
/// and moving it off the screen meanwhile keep it so.
pub proof fn law_in_step_between_frames(
    app: HoverDictApp,
    shared: Shared,
    on_screen: bool,
    result: Outcome,
    x: i32,
    y: i32,
    now: std::time::Instant,
)
    ensures
        app.is_first_frame && !shared.visible ==> in_step(app, shared, on_screen),
        in_step(app, shared, on_screen) ==> in_step(app, showing(result, x, y, now), on_screen),
        in_step(app, shared, on_screen) ==> in_step(
            app,
            Shared { visible: false, ..shared },
            on_screen,
        ),
        in_step(app, shared, on_screen) ==> in_step(
            app,
            Shared { visible: false, ..shared },
            false,
        ),
{
}

/// A switch in the menu turns itself over and no other, tells the user how it
/// now stands, and has the menu built anew; that of the pin also moves a
/// visible window to its new level. The choice of a model selects that model,
/// and touches no switch.
pub proof fn law_switch_turns_itself_alone(app: HoverDictApp, id: Seq<char>)
    ensures
        ({
            let (after, done) = menu_part(app, Choice::ToggleCapture);
            &&& after.switches.capture == !app.switches.capture
            &&& after.switches.llm == app.switches.llm
            &&& after.switches.pinned == app.switches.pinned
            &&& done == seq![
                Deed::Notify {
                    title: "划词翻译"@,
                    body: if after.switches.capture {
                        "已开启"@
                    } else {
                        "已关闭"@
                    },
                },
                Deed::RebuildMenu,
            ]
        }),
        ({
            let (after, done) = menu_part(app, Choice::ToggleLlm);
            &&& after.switches.llm == !app.switches.llm
            &&& after.switches.capture == app.switches.capture
            &&& after.switches.pinned == app.switches.pinned
            &&& done == seq![
                Deed::Notify {
                    title: "大模型翻译"@,
                    body: if after.switches.llm {
                        "已开启"@
                    } else {
                        "已关闭"@
                    },
                },
                Deed::RebuildMenu,
            ]
        }),
        ({
            let (after, done) = menu_part(app, Choice::TogglePin);
            let told = Deed::Notify {
                title: "翻译窗口置顶"@,
                body: if after.switches.pinned {
                    "已开启"@
                } else {
                    "已关闭"@
                },
            };
            &&& after.switches.pinned == !app.switches.pinned
            &&& after.switches.capture == app.switches.capture
            &&& after.switches.llm == app.switches.llm
            &&& !app.last_visible ==> done == seq![told, Deed::RebuildMenu]
            &&& app.last_visible ==> done == seq![
                told,
                Deed::RebuildMenu,
                Deed::SetLevel { on_top: after.switches.pinned },
            ]
        }),
        menu_part(app, Choice::SelectModel(id)) == (app, seq![Deed::SelectModel(id)]),
        menu_part(app, Choice::Ignore) == (app, Seq::<Deed>::empty()),
{
    let done = menu_part(app, Choice::TogglePin).1;
    let told = Deed::Notify { title: "翻译窗口置顶"@, body: on_off(!app.switches.pinned) };
    if app.last_visible {
        assert(done =~= seq![
            told,
            Deed::RebuildMenu,
            Deed::SetLevel { on_top: !app.switches.pinned },
        ]);
    } else {
        assert(done =~= seq![told, Deed::RebuildMenu]);
    }
}

/// The end of the program is all that happens in the frame in which it is
/// chosen, and nothing else ends it.
pub proof fn law_quit(app: HoverDictApp, shared: Shared, choice: Option<Choice>, escape: bool)
    ensures
        choice == Some(Choice::Quit) ==> frame(app, shared, choice, escape) == (
            app,
            shared,
            seq![Deed::Quit],
        ),
        choice != Some(Choice::Quit) ==> !frame(app, shared, choice, escape).2.contains(
            Deed::Quit,
        ),
{
    if choice != Some(Choice::Quit) {
        let (served, menu_deeds) = match choice {
            Some(choice) => menu_part(app, choice),
            None => (app, Seq::empty()),
        };
        let done = frame(app, shared, choice, escape).2;
        let rest = frame_part(served, shared, escape);
        assert(done == menu_deeds + rest);
        assert forall|i: int| 0 <= i < done.len() implies done[i] != Deed::Quit by {
            if i < menu_deeds.len() {
                assert(done[i] == menu_deeds[i]);
            } else {
                assert(done[i] == rest[i - menu_deeds.len()]);
            }
        }
    }
}

/// A choice in the menu is served before the rest of the frame, which then
/// goes as if nothing had been chosen.
pub proof fn law_menu_is_served_first(
    app: HoverDictApp,
    shared: Shared,
    choice: Choice,
    escape: bool,
)
    requires
        choice != Choice::Quit,
    ensures
        ({
            let (served, menu_deeds) = menu_part(app, choice);
            let (app_after, after, done) = frame(served, shared, None, escape);
            frame(app, shared, Some(choice), escape) == (app_after, after, menu_deeds + done)
        }),
{
    let (served, menu_deeds) = menu_part(app, choice);
    let rest = frame_part(served, shared, escape);
    assert(Seq::<Deed>::empty() + rest =~= rest);
}

/// The first frame keeps the window out of the taskbar and moves it off the
/// screen, and then goes like any other frame of a hidden window.
pub proof fn law_first_frame(app: HoverDictApp, shared: Shared, escape: bool)
    requires
        app.is_first_frame,
    ensures
        ({
            let begun = HoverDictApp { is_first_frame: false, last_visible: false, ..app };
            let (app_after, after, done) = frame(begun, shared, None, escape);
            frame(app, shared, None, escape) == (
                app_after,
                after,
                seq![Deed::HideFromTaskbar, Deed::Park] + done,
            )
        }),
{
    let begun = HoverDictApp { is_first_frame: false, last_visible: false, ..app };
    let first = frame(app, shared, None, escape).2;
    let done = frame(begun, shared, None, escape).2;
    assert(first =~= seq![Deed::HideFromTaskbar, Deed::Park] + done);
}

/// What a later frame without a choice does, in full. A hidden window is left
/// alone, one that is to be hidden is moved off the screen; one that is to be
/// shown is raised to the level of the pin and focused, unless it was visible
/// already, placed where a place waits for it, in the size of its result, and
/// drawn. Every frame keeps the window out of the taskbar first, and asks for
/// the next in a tenth of a second.
pub proof fn law_frame_in_full(app: HoverDictApp, shared: Shared, escape: bool)
    requires
        !app.is_first_frame,
    ensures
        ({
            let (app_after, after, done) = frame(app, shared, None, escape);
            let raised = seq![Deed::SetLevel { on_top: app.switches.pinned }, Deed::Focus];
            let drawn = seq![Deed::Draw(shared.current), Deed::RefreshAfterMs(100)];
            &&& app_after.switches == app.switches
            &&& after.visible == (shared.visible && !escape)
            &&& after.current == shared.current
            &&& !after.visible && !app.last_visible ==> done == seq![
                Deed::HideFromTaskbar,
                Deed::RefreshAfterMs(100),
            ]
            &&& !after.visible && app.last_visible ==> done == seq![
                Deed::HideFromTaskbar,
                Deed::Park,
                Deed::RefreshAfterMs(100),
            ]
            &&& after.visible && app.last_visible && shared.pending is None ==> done == seq![
                Deed::HideFromTaskbar,
            ] + drawn
            &&& after.visible && !app.last_visible && shared.pending is None ==> done == seq![
                Deed::HideFromTaskbar,
            ] + raised + drawn
            &&& shared.pending matches Some((x, y)) ==> {
                let placed = seq![Deed::Place { x, y, size: popup_size(shared.current) }];
                &&& after.visible && app.last_visible ==> done == seq![Deed::HideFromTaskbar]
                    + placed + drawn
                &&& after.visible && !app.last_visible ==> done == seq![Deed::HideFromTaskbar]
                    + raised + placed + drawn
            }
        }),
{
    let (_, after, done) = frame(app, shared, None, escape);
    let raised = seq![Deed::SetLevel { on_top: app.switches.pinned }, Deed::Focus];
    let drawn = seq![Deed::Draw(shared.current), Deed::RefreshAfterMs(100)];
    let off_bar = seq![Deed::HideFromTaskbar];
    if !after.visible {
        if app.last_visible {
            assert(done =~= seq![Deed::HideFromTaskbar, Deed::Park, Deed::RefreshAfterMs(100)]);
        } else {
            assert(done =~= seq![Deed::HideFromTaskbar, Deed::RefreshAfterMs(100)]);
        }
    } else {
        match shared.pending {
            None => {
                if app.last_visible {
                    assert(done =~= off_bar + drawn);
                } else {
                    assert(done =~= off_bar + raised + drawn);
                }
            },
            Some((x, y)) => {
                let placed = seq![Deed::Place { x, y, size: popup_size(shared.current) }];
                if app.last_visible {
                    assert(done =~= off_bar + placed + drawn);
                } else {
                    assert(done =~= off_bar + raised + placed + drawn);
                }
            },
        }
    }
}

} // verus!
