//! The program's state and its transitions.

use vstd::prelude::*;
use crate::event::{Action, Event, Key};
use crate::pipeline::{DrawCall, PipelineConfig, RenderPass};
use crate::surface::{Size, SwapConfig};

verus! {

/// The state as a plain value.
pub struct StateView {
    /// Current size of the window's drawable area.
    pub size: Size,
    /// Configuration of the current swap target.
    pub swap_config: SwapConfig,
    /// Settings of the render pipeline, built once.
    pub pipeline: PipelineConfig,
}

impl StateView {
    /// The swap target is the initial one at the window's current size, and
    /// the pipeline is the triangle pipeline for the format of the swap
    /// target's images.
    pub open spec fn consistent(self) -> bool {
        &&& self.swap_config == SwapConfig::initial(self.size)
        &&& self.pipeline == PipelineConfig::triangle(self.swap_config.format)
    }

    /// The state of a window that was just opened with `size`.
    pub open spec fn initial(size: Size) -> StateView {
        StateView {
            size,
            swap_config: SwapConfig::initial(size),
            pipeline: PipelineConfig::triangle(SwapConfig::initial(size).format),
        }
    }

    /// The state after the window took `size`: size and swap target follow,
    /// the pipeline stays.
    pub open spec fn resized(self, size: Size) -> StateView {
        StateView { size, swap_config: self.swap_config.with_size(size), pipeline: self.pipeline }
    }

    /// The state after `event`: only a resize changes it.
    pub open spec fn after(self, event: Event) -> StateView {
        match event {
            Event::Resized(size) => self.resized(size),
            _ => self,
        }
    }

    /// The reaction to `event` in this state.
    pub open spec fn reaction(self, event: Event) -> Action {
        match event {
            Event::CloseRequested => Action::Exit,
            Event::KeyboardInput(Some(Key::Escape)) => Action::Exit,
            Event::KeyboardInput(_) => Action::Ignore,
            Event::CursorMoved => Action::TrackCursor,
            Event::Resized(size) => Action::RecreateSwapChain(self.swap_config.with_size(size)),
            Event::RedrawRequested => Action::Draw(RenderPass::triangle()),
            Event::MainEventsCleared => Action::RequestRedraw,
            Event::Other => Action::Ignore,
        }
    }
}

/// The program's state: the window's size, the swap target's configuration
/// and the pipeline's settings, kept consistent with each other.
pub struct State {
    size: Size,
    swap_config: SwapConfig,
    pipeline: PipelineConfig,
}

impl View for State {
    type V = StateView;

    closed spec fn view(&self) -> StateView {
        StateView { size: self.size, swap_config: self.swap_config, pipeline: self.pipeline }
    }
}

impl State {
    #[verifier::type_invariant]
    closed spec fn inv(&self) -> bool {
        self@.consistent()
    }

    /// Creates the state for a window of `size`.
    pub fn new(size: Size) -> (state: State)
        ensures
            state@ == StateView::initial(size),
            state@.consistent(),
    {
        let swap_config = SwapConfig::for_window(size);
        let pipeline = PipelineConfig::for_format(swap_config.format);
        State { size, swap_config, pipeline }
    }

    /// The window's current size.
    pub fn size(&self) -> (size: Size)
        ensures
            self@.consistent(),
            size == self@.size,
            size == self@.swap_config.extent(),
    {
        proof {
            use_type_invariant(self);
        }
        self.size
    }

    /// The configuration of the current swap target: the initial one, at the
    /// window's current size.
    pub fn swap_config(&self) -> (config: SwapConfig)
        ensures
            self@.consistent(),
            config == self@.swap_config,
            config == SwapConfig::initial(self@.size),
            config.extent() == self@.size,
    {
        proof {
            use_type_invariant(self);
        }
        self.swap_config
    }

    /// The pipeline's settings: the triangle pipeline for the swap target's
    /// format.
    pub fn pipeline(&self) -> (config: PipelineConfig)
        ensures
            self@.consistent(),
            config == self@.pipeline,
            config == PipelineConfig::triangle(self@.swap_config.format),
            config.color_format == self@.swap_config.format,
    {
        proof {
            use_type_invariant(self);
        }
        self.pipeline
    }

    /// Takes the window's new size and returns the configuration with which
    /// the swap target is to be created anew.
    pub fn resize(&mut self, new_size: Size) -> (config: SwapConfig)
        ensures
            final(self)@ == old(self)@.resized(new_size),
            final(self)@.consistent(),
            config == final(self)@.swap_config,
            config.extent() == new_size,
    {
        proof {
            use_type_invariant(&*self);
        }
        let config = self.swap_config.resized(new_size);
        *self = State { size: new_size, swap_config: config, pipeline: self.pipeline };
        config
    }

    /// The pass to record for a frame: one color attachment and no other,
    /// cleared first; the pipeline bound, three vertices drawn in one
    /// instance, the result stored.
    pub fn render(&self) -> (pass: RenderPass)
        ensures
            pass == RenderPass::triangle(),
            pass.draw.vertices() == 3,
            pass.draw.instances() == 1,
    {
        RenderPass {
            color_attachments: 1,
            resolve_target: false,
            depth_stencil_attachment: false,
            clear: true,
            store: true,
            draw: DrawCall { vertex_start: 0, vertex_end: 3, instance_start: 0, instance_end: 1 },
        }
    }

    /// Takes one event, updates the state and returns what the caller is to
    /// do. A keyboard event without a key code is not accepted.
    pub fn handle_event(&mut self, event: Event) -> (action: Action)
        requires
            event.is_handled(),
        ensures
            final(self)@ == old(self)@.after(event),
            final(self)@.consistent(),
            action == old(self)@.reaction(event),
    {
        proof {
            use_type_invariant(&*self);
        }
        match event {
            Event::CloseRequested => Action::Exit,
            Event::KeyboardInput(key) => {
                match key {
                    Some(Key::Escape) => Action::Exit,
                    _ => Action::Ignore,
                }
            },
            Event::CursorMoved => Action::TrackCursor,
            Event::Resized(size) => Action::RecreateSwapChain(self.resize(size)),
            Event::RedrawRequested => Action::Draw(self.render()),
            Event::MainEventsCleared => Action::RequestRedraw,
            Event::Other => Action::Ignore,
        }
    }
}

/// A window that was just opened is in a consistent state.
pub proof fn lemma_initial_consistent(size: Size)
    ensures
        StateView::initial(size).consistent(),
{
}

/// No event leads out of the consistent states.
pub proof fn lemma_after_consistent(state: StateView, event: Event)
    requires
        state.consistent(),
    ensures
        state.after(event).consistent(),
{
}

/// After a resize the swap target has the new size, whatever it had before,
/// and keeps its usage, format and present mode.
pub proof fn lemma_resize_follows_window(state: StateView, size: Size)
    ensures
        state.resized(size).size == size,
        state.resized(size).swap_config.extent() == size,
        state.resized(size).swap_config.usage == state.swap_config.usage,
        state.resized(size).swap_config.format == state.swap_config.format,
        state.resized(size).swap_config.present_mode == state.swap_config.present_mode,
        state.resized(size).pipeline == state.pipeline,
{
}

/// A consistent state is the initial state of a window of its size: nothing
/// but the size tells two states apart.
pub proof fn lemma_consistent_is_initial(state: StateView)
    ensures
        state.consistent() <==> state == StateView::initial(state.size),
{
}

/// Only a resize changes the state, and only these events end the loop: a
/// close request and the escape key.
pub proof fn lemma_reactions(state: StateView, event: Event)
    ensures
        !(event is Resized) ==> state.after(event) == state,
        state.reaction(event) == Action::Exit <==> (event == Event::CloseRequested
            || event == Event::KeyboardInput(Some(Key::Escape))),
        state.reaction(event) is RecreateSwapChain <==> event is Resized,
        state.reaction(event) is Draw <==> event == Event::RedrawRequested,
{
}

} // verus!
