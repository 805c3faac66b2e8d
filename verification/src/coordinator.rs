//! The coordinator: the state machine of the shell.
//!
//! The embedding program owns the window, the two surfaces and the event
//! loop. It hands every signal it receives to [`Coordinator::handle`] and
//! carries out the directives that come back, in order. The coordinator
//! itself touches nothing outside its own state.

use vstd::prelude::*;
use crate::geometry::{compute_layout, content_rect, toolbar_rect, Rect};
use crate::navigation::{
    apply, applied, lemma_applied_is_absolute, normalize, normalized, Command, CommandView,
    Location, LocationView, Page,
};
use crate::script::{display_text, reflect_script, update_script};

verus! {

/// Whether the user interface exists yet.
#[derive(Clone, Copy, Debug, PartialEq, Eq, Structural)]
pub enum Phase {
    /// Nothing has been created.
    Uninitialized,
    /// The window and both surfaces exist.
    Running,
}

/// What the embedding program reports to the coordinator.
#[derive(Debug, PartialEq, Eq)]
pub enum Signal {
    /// The platform is ready for a user interface, and the window has been
    /// created with this inner size.
    Activated { width: u32, height: u32 },
    /// The user asked to close the window.
    CloseRequested,
    /// The window has this new inner size.
    Resized { width: u32, height: u32 },
    /// The bridge delivered a command from the toolbar.
    Bridged(Command),
}

/// What the coordinator asks the embedding program to do.
#[derive(Debug, PartialEq, Eq)]
pub enum Directive {
    /// Create the toolbar surface and the content surface with these bounds.
    CreateSurfaces { toolbar: Rect, content: Rect },
    /// Give the two surfaces these bounds.
    SetBounds { toolbar: Rect, content: Rect },
    /// Load this address into the content surface.
    LoadUrl(String),
    /// Load the settings document into the content surface.
    LoadSettings,
    /// Evaluate this script in the toolbar surface.
    RunToolbarScript(String),
    /// Leave the event loop.
    Exit,
}

/// The mathematical value of a [`Signal`].
pub enum SignalView {
    Activated { width: u32, height: u32 },
    CloseRequested,
    Resized { width: u32, height: u32 },
    Bridged(CommandView),
}

/// The mathematical value of a [`Directive`].
pub enum DirectiveView {
    CreateSurfaces { toolbar: Rect, content: Rect },
    SetBounds { toolbar: Rect, content: Rect },
    LoadUrl(Seq<char>),
    LoadSettings,
    RunToolbarScript(Seq<char>),
    Exit,
}

impl View for Signal {
    type V = SignalView;

    open spec fn view(&self) -> SignalView {
        match self {
            Signal::Activated { width, height } => SignalView::Activated {
                width: *width,
                height: *height,
            },
            Signal::CloseRequested => SignalView::CloseRequested,
            Signal::Resized { width, height } => SignalView::Resized {
                width: *width,
                height: *height,
            },
            Signal::Bridged(command) => SignalView::Bridged(command@),
        }
    }
}

impl View for Directive {
    type V = DirectiveView;

    open spec fn view(&self) -> DirectiveView {
        match self {
            Directive::CreateSurfaces { toolbar, content } => DirectiveView::CreateSurfaces {
                toolbar: *toolbar,
                content: *content,
            },
            Directive::SetBounds { toolbar, content } => DirectiveView::SetBounds {
                toolbar: *toolbar,
                content: *content,
            },
            Directive::LoadUrl(url) => DirectiveView::LoadUrl(url@),
            Directive::LoadSettings => DirectiveView::LoadSettings,
            Directive::RunToolbarScript(script) => DirectiveView::RunToolbarScript(script@),
            Directive::Exit => DirectiveView::Exit,
        }
    }
}

/// The state of the shell: what the embedding program cannot decide
/// without.
pub struct Coordinator {
    phase: Phase,
    location: Location,
    toolbar_height: u32,
}

/// The mathematical value of a [`Coordinator`].
pub struct CoordinatorView {
    pub phase: Phase,
    pub location: LocationView,
    pub toolbar_height: u32,
}

/// The views of a list of directives, in order.
pub open spec fn directive_views(directives: Seq<Directive>) -> Seq<DirectiveView> {
    directives.map_values(|d: Directive| d@)
}

/// The directive that brings a location into the content surface.
pub open spec fn load_of(location: LocationView) -> DirectiveView {
    match location {
        LocationView::External(url) => DirectiveView::LoadUrl(url),
        LocationView::Internal(Page::Settings) => DirectiveView::LoadSettings,
    }
}

/// The directive that reflects a location into the toolbar.
pub open spec fn reflect_of(location: LocationView) -> DirectiveView {
    DirectiveView::RunToolbarScript(update_script(display_text(location)))
}

/// The two panes of a window of the given size under this state's toolbar.
pub open spec fn layout_of(state: CoordinatorView, width: u32, height: u32) -> (Rect, Rect) {
    (toolbar_rect(width, state.toolbar_height), content_rect(width, height, state.toolbar_height))
}

impl CoordinatorView {
    /// The state is valid when its location is absolute.
    pub open spec fn wf(self) -> bool {
        self.location.is_absolute()
    }

    /// The state after a signal.
    ///
    /// Activation starts the shell, once. A bridged command moves the
    /// location of a running shell. Nothing else changes the state.
    pub open spec fn next(self, signal: SignalView) -> CoordinatorView {
        match signal {
            SignalView::Activated { .. } => CoordinatorView { phase: Phase::Running, ..self },
            SignalView::Bridged(command) => if self.phase is Running {
                CoordinatorView { location: applied(command), ..self }
            } else {
                self
            },
            _ => self,
        }
    }

    /// What a signal asks of the embedding program, in order.
    ///
    /// A close request always ends the loop. Activation of a shell that is
    /// not running creates both surfaces, loads the current location and
    /// reflects it into the toolbar. A running shell answers a resize with
    /// new bounds, and a bridged command with a load of the new location
    /// and its reflection into the toolbar. Every other signal asks for
    /// nothing.
    pub open spec fn reaction(self, signal: SignalView) -> Seq<DirectiveView> {
        match signal {
            SignalView::CloseRequested => seq![DirectiveView::Exit],
            SignalView::Activated { width, height } => if self.phase is Uninitialized {
                seq![
                    DirectiveView::CreateSurfaces {
                        toolbar: layout_of(self, width, height).0,
                        content: layout_of(self, width, height).1,
                    },
                    load_of(self.location),
                    reflect_of(self.location),
                ]
            } else {
                Seq::empty()
            },
            SignalView::Resized { width, height } => if self.phase is Running {
                seq![
                    DirectiveView::SetBounds {
                        toolbar: layout_of(self, width, height).0,
                        content: layout_of(self, width, height).1,
                    },
                ]
            } else {
                Seq::empty()
            },
            SignalView::Bridged(command) => if self.phase is Running {
                seq![load_of(applied(command)), reflect_of(applied(command))]
            } else {
                Seq::empty()
            },
        }
    }
}

/// The directive that brings `location` into the content surface.
fn load_directive(location: &Location) -> (directive: Directive)
    ensures
        directive@ == load_of(location@),
{
    match location {
        Location::External(url) => Directive::LoadUrl(url.clone()),
        Location::Internal(Page::Settings) => Directive::LoadSettings,
    }
}

/// The directive that reflects `location` into the toolbar.
fn reflect_directive(location: &Location) -> (directive: Directive)
    ensures
        directive@ == reflect_of(location@),
{
    Directive::RunToolbarScript(reflect_script(location))
}

impl View for Coordinator {
    type V = CoordinatorView;

    closed spec fn view(&self) -> CoordinatorView {
        CoordinatorView {
            phase: self.phase,
            location: self.location@,
            toolbar_height: self.toolbar_height,
        }
    }
}

impl Coordinator {
    #[verifier::type_invariant]
    spec fn location_is_absolute(self) -> bool {
        self.location.is_absolute()
    }

    /// A shell that has not started, with the toolbar height it will use
    /// for its whole life and the address it will open first.
    pub fn new(toolbar_height: u32, home: &str) -> (coordinator: Coordinator)
        ensures
            coordinator@ == (CoordinatorView {
                phase: Phase::Uninitialized,
                location: LocationView::External(normalized(home@)),
                toolbar_height,
            }),
            coordinator@.wf(),
    {
        Coordinator {
            phase: Phase::Uninitialized,
            location: Location::External(normalize(home)),
            toolbar_height,
        }
    }

    /// Whether the shell is running.
    pub fn phase(&self) -> (phase: Phase)
        ensures
            phase == self@.phase,
    {
        self.phase
    }

    /// The current location.
    pub fn location(&self) -> (location: &Location)
        ensures
            location@ == self@.location,
            location.is_absolute(),
    {
        proof {
            use_type_invariant(self);
        }
        &self.location
    }

    /// The height of the toolbar.
    pub fn toolbar_height(&self) -> (height: u32)
        ensures
            height == self@.toolbar_height,
    {
        self.toolbar_height
    }

    /// Takes one signal: moves the state as [`CoordinatorView::next`] says
    /// and returns the directives of [`CoordinatorView::reaction`], which
    /// the embedding program carries out in order. Handling never fails and
    /// never waits: what becomes of a directive is not reported back.
    pub fn handle(&mut self, signal: Signal) -> (directives: Vec<Directive>)
        ensures
            final(self)@ == old(self)@.next(signal@),
            directive_views(directives@) == old(self)@.reaction(signal@),
            final(self)@.wf(),
    {
        proof {
            use_type_invariant(&*self);
        }
        let mut directives: Vec<Directive> = Vec::new();
        match signal {
            Signal::CloseRequested => {
                directives.push(Directive::Exit);
            },
            Signal::Activated { width, height } => {
                if let Phase::Uninitialized = self.phase {
                    let (toolbar, content) = compute_layout(width, height, self.toolbar_height);
                    directives.push(Directive::CreateSurfaces { toolbar, content });
                    directives.push(load_directive(&self.location));
                    directives.push(reflect_directive(&self.location));
                    self.phase = Phase::Running;
                }
            },
            Signal::Resized { width, height } => {
                if let Phase::Running = self.phase {
                    let (toolbar, content) = compute_layout(width, height, self.toolbar_height);
                    directives.push(Directive::SetBounds { toolbar, content });
                }
            },
            Signal::Bridged(command) => {
                if let Phase::Running = self.phase {
                    let next = apply(&self.location, command);
                    directives.push(load_directive(&next));
                    directives.push(reflect_directive(&next));
                    self.location = next;
                }
            },
        }
        directives
    }
}

/// A valid state stays valid under every signal.
pub proof fn lemma_next_is_valid(state: CoordinatorView, signal: SignalView)
    requires
        state.wf(),
    ensures
        state.next(signal).wf(),
{
    if let SignalView::Bridged(command) = signal {
        lemma_applied_is_absolute(command);
    }
}

/// A running shell keeps running, and no signal changes the height of the
/// toolbar.
pub proof fn lemma_next_keeps_running(state: CoordinatorView, signal: SignalView)
    ensures
        state.phase is Running ==> state.next(signal).phase is Running,
        state.next(signal).toolbar_height == state.toolbar_height,
{
}

/// A resize leaves the state as it was, so the same resize delivered twice
/// in a row is answered twice with the same bounds: nothing accumulates.
pub proof fn lemma_resize_is_idempotent(state: CoordinatorView, width: u32, height: u32)
    ensures
        state.next(SignalView::Resized { width, height }) == state,
        state.next(SignalView::Resized { width, height }).reaction(
            SignalView::Resized { width, height },
        ) == state.reaction(SignalView::Resized { width, height }),
{
}

/// In a running shell, a command to open the settings always leads to the
/// settings page, and a command to navigate always leads to the normalized
/// address, whatever the location before. Either is followed by a load of
/// the new location and then by its reflection into the toolbar.
pub proof fn lemma_command_moves_location(state: CoordinatorView, command: CommandView)
    requires
        state.phase is Running,
    ensures
        command is OpenSettings ==> state.next(SignalView::Bridged(command)).location
            == LocationView::Internal(Page::Settings),
        command matches CommandView::NavigateTo(raw) ==> state.next(
            SignalView::Bridged(command),
        ).location == LocationView::External(normalized(raw)),
        state.reaction(SignalView::Bridged(command)) == seq![
            load_of(state.next(SignalView::Bridged(command)).location),
            reflect_of(state.next(SignalView::Bridged(command)).location),
        ],
{
}

} // verus!
