use vstd::prelude::*;

verus! {

/// A message to the page that is shown while the plugin is written.
#[derive(Clone, Copy, Debug, PartialEq, Eq, Structural)]
pub enum InstallingPageEvent {
    /// The installation has started.
    Install,
    /// The installation is over.
    Finish,
}

/// The line below the page's title.
#[derive(Clone, Copy, Debug, PartialEq, Eq, Structural)]
pub enum Subtitle {
    ConfirmInstall,
    Installing,
    InstallFinish,
}

impl Subtitle {
    /// The key under which the line's text is filed.
    pub open spec fn spec_key(self) -> Seq<char> {
        match self {
            Subtitle::ConfirmInstall => "confirm-install"@,
            Subtitle::Installing => "installing"@,
            Subtitle::InstallFinish => "install-finish"@,
        }
    }

    /// The key under which the line's text is filed.
    pub fn key(&self) -> (key: &'static str)
        ensures
            key@ == self.spec_key(),
    {
        match self {
            Subtitle::ConfirmInstall => "confirm-install",
            Subtitle::Installing => "installing",
            Subtitle::InstallFinish => "install-finish",
        }
    }
}

/// The abstract state of the page.
pub struct InstallingPageState {
    pub subtitle: Subtitle,
    pub show_install_btn: bool,
}

/// The page that is shown while the plugin is written.
#[derive(Debug)]
pub struct InstallingPage {
    subtitle: Subtitle,
    show_install_btn: bool,
}

impl View for InstallingPage {
    type V = InstallingPageState;

    closed spec fn view(&self) -> InstallingPageState {
        InstallingPageState { subtitle: self.subtitle, show_install_btn: self.show_install_btn }
    }
}

impl InstallingPage {
    /// The page before the installation has started: it asks for
    /// confirmation and shows its button.
    pub fn new() -> (page: InstallingPage)
        ensures
            page@ == (InstallingPageState {
                subtitle: Subtitle::ConfirmInstall,
                show_install_btn: true,
            }),
    {
        InstallingPage { subtitle: Subtitle::ConfirmInstall, show_install_btn: true }
    }

    /// The line below the title.
    pub fn subtitle(&self) -> (subtitle: Subtitle)
        ensures
            subtitle == self@.subtitle,
    {
        self.subtitle
    }

    /// Whether the button that starts the installation is shown.
    pub fn show_install_btn(&self) -> (shown: bool)
        ensures
            shown == self@.show_install_btn,
    {
        self.show_install_btn
    }

    /// Handles one message: either hides the button, and the subtitle
    /// says how far the installation is.
    pub fn event(&mut self, event: &InstallingPageEvent)
        ensures
            !final(self)@.show_install_btn,
            final(self)@.subtitle == (match *event {
                InstallingPageEvent::Install => Subtitle::Installing,
                InstallingPageEvent::Finish => Subtitle::InstallFinish,
            }),
    {
        self.show_install_btn = false;
        self.subtitle = match event {
            InstallingPageEvent::Install => Subtitle::Installing,
            InstallingPageEvent::Finish => Subtitle::InstallFinish,
        };
    }
}

} // verus!
