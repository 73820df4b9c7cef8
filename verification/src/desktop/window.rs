//! What the window is asked to do.

use vstd::prelude::*;

verus! {

/// A request to the window.
#[derive(Debug, Clone, PartialEq, Eq)]
pub enum AppEvent {
    LoadUrl(String),
    Hide,
    Show,
}

/// What is done with the window.
#[derive(Debug, Clone, PartialEq, Eq)]
pub enum WindowCommand {
    SetVisible(bool),
    /// Let this many milliseconds pass.
    Pause(u64),
    Load(String),
}

/// A window command as plain values.
pub enum WindowCommandView {
    SetVisible(bool),
    Pause(u64),
    Load(Seq<char>),
}

impl View for WindowCommand {
    type V = WindowCommandView;

    open spec fn view(&self) -> WindowCommandView {
        match self {
            WindowCommand::SetVisible(visible) => WindowCommandView::SetVisible(*visible),
            WindowCommand::Pause(millis) => WindowCommandView::Pause(*millis),
            WindowCommand::Load(url) => WindowCommandView::Load(url@),
        }
    }
}

/// What each command of a list is.
pub open spec fn commands(list: Seq<WindowCommand>) -> Seq<WindowCommandView> {
    Seq::new(list.len(), |i: int| list[i]@)
}

/// What a request does to the window. Before the first address is loaded the
/// window is hidden and shown again, which makes it draw.
pub open spec fn reaction(event: AppEvent, first_load: bool) -> Seq<WindowCommandView> {
    match event {
        AppEvent::LoadUrl(url) => if first_load {
            seq![
                WindowCommandView::SetVisible(false),
                WindowCommandView::Pause(100),
                WindowCommandView::SetVisible(true),
                WindowCommandView::Load(url@),
            ]
        } else {
            seq![WindowCommandView::Load(url@)]
        },
        AppEvent::Hide => seq![WindowCommandView::SetVisible(false)],
        AppEvent::Show => seq![WindowCommandView::SetVisible(true)],
    }
}

/// What a request does to the window; `first_load` says whether no address
/// was loaded yet, and is cleared by the first that is.
pub fn create_desktop_webview(event: AppEvent, first_load: &mut bool) -> (r: Vec<WindowCommand>)
    ensures
        commands(r@) == reaction(event, *old(first_load)),
        *final(first_load) == (*old(first_load) && !(event is LoadUrl)),
{
    let mut out: Vec<WindowCommand> = Vec::new();
    match event {
        AppEvent::LoadUrl(url) => {
            if *first_load {
                *first_load = false;
                out.push(WindowCommand::SetVisible(false));
                out.push(WindowCommand::Pause(100));
                out.push(WindowCommand::SetVisible(true));
            }
            out.push(WindowCommand::Load(url));
        },
        AppEvent::Hide => {
            out.push(WindowCommand::SetVisible(false));
        },
        AppEvent::Show => {
            out.push(WindowCommand::SetVisible(true));
        },
    }
    assert(commands(out@) =~= reaction(event, *old(first_load)));
    out
}

} // verus!
