use vstd::prelude::*;

verus! {

/// The editor window's width in logical pixels when it is first opened.
pub const DEFAULT_WIDTH: u32 = 800;

/// The editor window's height in logical pixels when it is first opened.
pub const DEFAULT_HEIGHT: u32 = 500;

/// A message to the editor's model.
#[derive(Debug, PartialEq, Eq)]
pub enum MainViewEvent {
    /// Show the information panel if it is hidden, hide it if it is shown.
    ToggleInfoPanel,
    /// Open an address in the system's browser.
    OpenUrl(String),
}

/// The editor's model: whether the information panel is shown.
#[derive(Debug)]
pub struct Data {
    is_show_info_panel: bool,
}

impl View for Data {
    type V = bool;

    closed spec fn view(&self) -> bool {
        self.is_show_info_panel
    }
}

/// The address that a message asks to have opened, if any.
pub open spec fn url_to_open(event: MainViewEvent) -> Option<Seq<char>> {
    match event {
        MainViewEvent::ToggleInfoPanel => None,
        MainViewEvent::OpenUrl(url) => Some(url@),
    }
}

/// The size of the editor window when it is first opened, width first.
pub fn default_size() -> (size: (u32, u32))
    ensures
        size == (DEFAULT_WIDTH, DEFAULT_HEIGHT),
{
    (DEFAULT_WIDTH, DEFAULT_HEIGHT)
}

impl Data {
    /// The model of a freshly opened editor: the information panel is
    /// hidden.
    pub fn new() -> (data: Data)
        ensures
            !data@,
    {
        Data { is_show_info_panel: false }
    }

    /// Whether the information panel is shown.
    pub fn is_show_info_panel(&self) -> (shown: bool)
        ensures
            shown == self@,
    {
        self.is_show_info_panel
    }

    /// Handles one message. A toggle flips the panel; a request to open an
    /// address leaves the model alone and hands the address back for the
    /// caller to open.
    pub fn event(&mut self, event: &MainViewEvent) -> (open: Option<String>)
        ensures
            final(self)@ == (if *event is ToggleInfoPanel {
                !old(self)@
            } else {
                old(self)@
            }),
            open is Some == url_to_open(*event) is Some,
            open matches Some(url) ==> Some(url@) == url_to_open(*event),
    {
        match event {
            MainViewEvent::ToggleInfoPanel => {
                self.is_show_info_panel = !self.is_show_info_panel;
                None
            },
            MainViewEvent::OpenUrl(url) => Some(url.clone()),
        }
    }
}

} // verus!
