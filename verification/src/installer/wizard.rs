use vstd::prelude::*;
use crate::installer::localize::Language;

verus! {

/// The pages of the installer, in the order in which they are walked.
#[derive(Clone, Copy, Debug, PartialEq, Eq, Structural)]
pub enum TabPage {
    SelectFormat,
    SelectPath,
    Confirm,
    Installing,
    Done,
}

/// A message to the installer's model.
#[derive(Debug, PartialEq, Eq)]
pub enum AppEvent {
    ToggleInstallVst3,
    ToggleInstallClap,
    PrevPage,
    NextPage,
    UpdateVst3Path(String),
    UpdateClapPath(String),
    StartInstallation,
    UpdateButtons,
    UpdateLanguage(Language),
}

/// The text on the button that leads onwards.
#[derive(Clone, Copy, Debug, PartialEq, Eq, Structural)]
pub enum ButtonText {
    Next,
    Install,
    Done,
}

/// What the model asks of the program around it after a message.
#[derive(Clone, Copy, Debug, PartialEq, Eq, Structural)]
pub enum AppEffect {
    /// Send the model the message `UpdateButtons`.
    EmitUpdateButtons,
    /// Send the model the message `StartInstallation`.
    EmitStartInstallation,
    /// Send the model the message `NextPage`.
    EmitNextPage,
    /// Write the VST3 bundle below the chosen VST3 directory.
    InstallVst3,
    /// Write the CLAP plugin below the chosen CLAP directory.
    InstallClap,
    /// Switch the texts to a language.
    SetLocale(Language),
    /// End the program.
    Exit,
}

/// The abstract state of the installer's model.
pub struct AppDataState {
    pub install_vst3: bool,
    pub install_clap: bool,
    pub current_page: TabPage,
    pub show_prev_btn: bool,
    pub show_next_btn: bool,
    pub disable_next_btn: bool,
    pub vst3_path: Seq<char>,
    pub clap_path: Seq<char>,
    pub next_btn_text: ButtonText,
    pub lang: Language,
}

/// The page before `page`. The first page is its own predecessor.
pub open spec fn prev_page(page: TabPage) -> TabPage {
    match page {
        TabPage::SelectFormat => TabPage::SelectFormat,
        TabPage::SelectPath => TabPage::SelectFormat,
        TabPage::Confirm => TabPage::SelectPath,
        TabPage::Installing => TabPage::Installing,
        TabPage::Done => TabPage::Done,
    }
}

/// The page after `page`. Nothing follows the last page.
pub open spec fn next_page(page: TabPage) -> TabPage {
    match page {
        TabPage::SelectFormat => TabPage::SelectPath,
        TabPage::SelectPath => TabPage::Confirm,
        TabPage::Confirm => TabPage::Installing,
        TabPage::Installing => TabPage::Done,
        TabPage::Done => TabPage::Done,
    }
}

/// Whether one can go back from a page: not from the first, not while
/// installing and not when done.
pub open spec fn can_go_back(page: TabPage) -> bool {
    page is SelectPath || page is Confirm
}

/// The text of the onward button on a page.
pub open spec fn button_text(page: TabPage) -> ButtonText {
    match page {
        TabPage::Confirm => ButtonText::Install,
        TabPage::Done => ButtonText::Done,
        _ => ButtonText::Next,
    }
}

/// Whether neither format is selected.
pub open spec fn nothing_selected(install_vst3: bool, install_clap: bool) -> bool {
    !install_vst3 && !install_clap
}

/// The state after a message. The onward button is disabled exactly
/// while no format is selected; the buttons follow the page only when
/// `UpdateButtons` arrives.
pub open spec fn spec_event(state: AppDataState, event: AppEvent) -> AppDataState {
    match event {
        AppEvent::ToggleInstallVst3 => AppDataState {
            install_vst3: !state.install_vst3,
            disable_next_btn: nothing_selected(!state.install_vst3, state.install_clap),
            ..state
        },
        AppEvent::ToggleInstallClap => AppDataState {
            install_clap: !state.install_clap,
            disable_next_btn: nothing_selected(state.install_vst3, !state.install_clap),
            ..state
        },
        AppEvent::PrevPage => AppDataState { current_page: prev_page(state.current_page), ..state },
        AppEvent::NextPage => AppDataState { current_page: next_page(state.current_page), ..state },
        AppEvent::UpdateVst3Path(path) => AppDataState { vst3_path: path@, ..state },
        AppEvent::UpdateClapPath(path) => AppDataState { clap_path: path@, ..state },
        AppEvent::StartInstallation => state,
        AppEvent::UpdateButtons => AppDataState {
            show_next_btn: !(state.current_page is Installing),
            show_prev_btn: can_go_back(state.current_page),
            next_btn_text: button_text(state.current_page),
            ..state
        },
        AppEvent::UpdateLanguage(lang) => AppDataState {
            lang,
            next_btn_text: ButtonText::Done,
            ..state
        },
    }
}

/// The onward button is disabled exactly while no format is selected.
pub open spec fn next_follows_selection(state: AppDataState) -> bool {
    state.disable_next_btn == nothing_selected(state.install_vst3, state.install_clap)
}

/// No message breaks the tie between the selection and the onward
/// button, and no message but the next and the previous changes the page.
pub proof fn lemma_event_keeps_selection(state: AppDataState, event: AppEvent)
    requires
        next_follows_selection(state),
    ensures
        next_follows_selection(spec_event(state, event)),
        !(event is NextPage) && !(event is PrevPage) ==> spec_event(state, event).current_page
            == state.current_page,
{
}

/// What the installation writes: the selected formats, VST3 first.
pub open spec fn install_effects(install_vst3: bool, install_clap: bool) -> Seq<AppEffect> {
    let vst3 = if install_vst3 {
        seq![AppEffect::InstallVst3]
    } else {
        Seq::empty()
    };
    let clap = if install_clap {
        seq![AppEffect::InstallClap]
    } else {
        Seq::empty()
    };
    vst3 + clap
}

/// What a message asks of the program, in order.
pub open spec fn spec_effects(state: AppDataState, event: AppEvent) -> Seq<AppEffect> {
    match event {
        AppEvent::PrevPage => seq![AppEffect::EmitUpdateButtons],
        AppEvent::NextPage => match state.current_page {
            TabPage::Confirm => seq![
                AppEffect::EmitStartInstallation,
                AppEffect::EmitUpdateButtons,
            ],
            TabPage::Done => seq![AppEffect::Exit],
            _ => seq![AppEffect::EmitUpdateButtons],
        },
        AppEvent::StartInstallation => install_effects(state.install_vst3, state.install_clap)
            + seq![AppEffect::EmitNextPage],
        AppEvent::UpdateLanguage(lang) => seq![
            AppEffect::SetLocale(lang),
            AppEffect::EmitUpdateButtons,
        ],
        _ => Seq::empty(),
    }
}

/// The installer's model: what to install, where, and which page is
/// shown.
#[derive(Debug)]
pub struct AppData {
    install_vst3: bool,
    install_clap: bool,
    current_page: TabPage,
    show_prev_btn: bool,
    show_next_btn: bool,
    disable_next_btn: bool,
    vst3_path: String,
    clap_path: String,
    next_btn_text: ButtonText,
    lang: Language,
}

impl View for AppData {
    type V = AppDataState;

    closed spec fn view(&self) -> AppDataState {
        AppDataState {
            install_vst3: self.install_vst3,
            install_clap: self.install_clap,
            current_page: self.current_page,
            show_prev_btn: self.show_prev_btn,
            show_next_btn: self.show_next_btn,
            disable_next_btn: self.disable_next_btn,
            vst3_path: self.vst3_path@,
            clap_path: self.clap_path@,
            next_btn_text: self.next_btn_text,
            lang: self.lang,
        }
    }
}

impl ButtonText {
    /// The key under which the text is filed.
    pub open spec fn spec_key(self) -> Seq<char> {
        match self {
            ButtonText::Next => "next"@,
            ButtonText::Install => "install"@,
            ButtonText::Done => "done"@,
        }
    }

    /// The key under which the text is filed.
    pub fn key(&self) -> (key: &'static str)
        ensures
            key@ == self.spec_key(),
    {
        match self {
            ButtonText::Next => "next",
            ButtonText::Install => "install",
            ButtonText::Done => "done",
        }
    }
}

impl AppData {
    /// The model as the installer starts: nothing selected, the first
    /// page shown, the onward button disabled, the given directories, and
    /// English texts.
    pub fn new(vst3_path: String, clap_path: String) -> (data: AppData)
        ensures
            data@ == (AppDataState {
                install_vst3: false,
                install_clap: false,
                current_page: TabPage::SelectFormat,
                show_prev_btn: false,
                show_next_btn: true,
                disable_next_btn: true,
                vst3_path: vst3_path@,
                clap_path: clap_path@,
                next_btn_text: ButtonText::Next,
                lang: Language::English,
            }),
            next_follows_selection(data@),
    {
        AppData {
            install_vst3: false,
            install_clap: false,
            current_page: TabPage::SelectFormat,
            show_prev_btn: false,
            show_next_btn: true,
            disable_next_btn: true,
            vst3_path,
            clap_path,
            next_btn_text: ButtonText::Next,
            lang: Language::English,
        }
    }

    /// Whether the VST3 format is selected.
    pub fn install_vst3(&self) -> (b: bool)
        ensures
            b == self@.install_vst3,
    {
        self.install_vst3
    }

    /// Whether the CLAP format is selected.
    pub fn install_clap(&self) -> (b: bool)
        ensures
            b == self@.install_clap,
    {
        self.install_clap
    }

    /// The page that is shown.
    pub fn current_page(&self) -> (page: TabPage)
        ensures
            page == self@.current_page,
    {
        self.current_page
    }

    /// Whether the button that leads back is shown.
    pub fn show_prev_btn(&self) -> (b: bool)
        ensures
            b == self@.show_prev_btn,
    {
        self.show_prev_btn
    }

    /// Whether the button that leads onwards is shown.
    pub fn show_next_btn(&self) -> (b: bool)
        ensures
            b == self@.show_next_btn,
    {
        self.show_next_btn
    }

    /// Whether the button that leads onwards is disabled.
    pub fn disable_next_btn(&self) -> (b: bool)
        ensures
            b == self@.disable_next_btn,
    {
        self.disable_next_btn
    }

    /// The directory chosen for the VST3 bundle.
    pub fn vst3_path(&self) -> (path: &String)
        ensures
            path@ == self@.vst3_path,
    {
        &self.vst3_path
    }

    /// The directory chosen for the CLAP plugin.
    pub fn clap_path(&self) -> (path: &String)
        ensures
            path@ == self@.clap_path,
    {
        &self.clap_path
    }

    /// The text on the button that leads onwards.
    pub fn next_btn_text(&self) -> (text: ButtonText)
        ensures
            text == self@.next_btn_text,
    {
        self.next_btn_text
    }

    /// The language of the texts.
    pub fn lang(&self) -> (lang: Language)
        ensures
            lang == self@.lang,
    {
        self.lang
    }

    /// Handles one message and returns what it asks of the program, in
    /// order. There is no way back while installing or when done.
    pub fn event(&mut self, event: &AppEvent) -> (effects: Vec<AppEffect>)
        requires
            *event is PrevPage ==> !(old(self)@.current_page is Installing)
                && !(old(self)@.current_page is Done),
        ensures
            final(self)@ == spec_event(old(self)@, *event),
            effects@ == spec_effects(old(self)@, *event),
            next_follows_selection(old(self)@) ==> next_follows_selection(final(self)@),
    {
        match event {
            AppEvent::ToggleInstallVst3 => {
                self.install_vst3 = !self.install_vst3;
                self.disable_next_btn = !self.install_clap && !self.install_vst3;
                Vec::new()
            },
            AppEvent::ToggleInstallClap => {
                self.install_clap = !self.install_clap;
                self.disable_next_btn = !self.install_clap && !self.install_vst3;
                Vec::new()
            },
            AppEvent::PrevPage => {
                self.current_page = match self.current_page {
                    TabPage::SelectFormat => TabPage::SelectFormat,
                    TabPage::SelectPath => TabPage::SelectFormat,
                    TabPage::Confirm => TabPage::SelectPath,
                    TabPage::Installing => TabPage::Installing,
                    TabPage::Done => TabPage::Done,
                };
                vec![AppEffect::EmitUpdateButtons]
            },
            AppEvent::NextPage => {
                match self.current_page {
                    TabPage::SelectFormat => {
                        self.current_page = TabPage::SelectPath;
                        vec![AppEffect::EmitUpdateButtons]
                    },
                    TabPage::SelectPath => {
                        self.current_page = TabPage::Confirm;
                        vec![AppEffect::EmitUpdateButtons]
                    },
                    TabPage::Confirm => {
                        self.current_page = TabPage::Installing;
                        vec![AppEffect::EmitStartInstallation, AppEffect::EmitUpdateButtons]
                    },
                    TabPage::Installing => {
                        self.current_page = TabPage::Done;
                        vec![AppEffect::EmitUpdateButtons]
                    },
                    TabPage::Done => vec![AppEffect::Exit],
                }
            },
            AppEvent::UpdateVst3Path(path) => {
                self.vst3_path = path.clone();
                Vec::new()
            },
            AppEvent::UpdateClapPath(path) => {
                self.clap_path = path.clone();
                Vec::new()
            },
            AppEvent::StartInstallation => {
                let mut effects: Vec<AppEffect> = Vec::new();
                if self.install_vst3 {
                    effects.push(AppEffect::InstallVst3);
                }
                if self.install_clap {
                    effects.push(AppEffect::InstallClap);
                }
                effects.push(AppEffect::EmitNextPage);
                effects
            },
            AppEvent::UpdateButtons => {
                self.show_next_btn = match self.current_page {
                    TabPage::Installing => false,
                    _ => true,
                };
                self.show_prev_btn = match self.current_page {
                    TabPage::SelectPath => true,
                    TabPage::Confirm => true,
                    _ => false,
                };
                self.next_btn_text = match self.current_page {
                    TabPage::Confirm => ButtonText::Install,
                    TabPage::Done => ButtonText::Done,
                    _ => ButtonText::Next,
                };
                Vec::new()
            },
            AppEvent::UpdateLanguage(lang) => {
                self.lang = *lang;
                self.next_btn_text = ButtonText::Done;
                vec![AppEffect::SetLocale(*lang), AppEffect::EmitUpdateButtons]
            },
        }
    }
}

/// Where the VST3 plugin is written, as the names to descend through
/// from the chosen VST3 directory, the file's own name last.
pub fn vst3_target() -> (names: Vec<&'static str>)
    ensures
        names@.len() == 3,
        names@[0]@ == "im_disperser"@,
        names@[1]@ == "Contents"@,
        names@[2]@ == "im_disperser.vst3"@,
{
    vec!["im_disperser", "Contents", "im_disperser.vst3"]
}

/// Where the CLAP plugin is written, as the names to descend through
/// from the chosen CLAP directory, the file's own name last.
pub fn clap_target() -> (names: Vec<&'static str>)
    ensures
        names@.len() == 2,
        names@[0]@ == "im_disperser"@,
        names@[1]@ == "im_disperser.clap"@,
{
    vec!["im_disperser", "im_disperser.clap"]
}

} // verus!
