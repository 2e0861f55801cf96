//! The global text direction and the opaque handles of the context.
use vstd::prelude::*;

verus! {

/// Text direction.
#[derive(Debug, Clone, Copy, PartialEq, Eq, Structural, Hash, Default)]
pub enum TextDirection {
    #[default]
    Ltr,
    Rtl,
}

/// Handle of the backend.
#[derive(Debug, Clone, Copy)]
pub struct Backend;

/// Handle of the color manager.
#[derive(Debug, Clone, Copy)]
pub struct ColorManager;

/// Handle of the settings object.
#[derive(Debug, Clone, Copy)]
pub struct Settings;

/// Handle of the stage manager.
#[derive(Debug, Clone, Copy)]
pub struct StageManager;

/// Handle of the pipeline cache.
#[derive(Debug, Clone, Copy)]
pub struct PipelineCache;

/// Handle of the event queue.
#[derive(Debug, Clone, Copy)]
pub struct EventsQueue;

/// The per-application state: the handles of the subsystems (once set),
/// the text direction, the frames-per-second display switch and the id of
/// the last repaint.
#[derive(Debug, Clone)]
pub struct Context {
    pub backend: Option<Backend>,
    pub settings: Option<Settings>,
    pub stage_manager: Option<StageManager>,
    pub text_direction: TextDirection,
    pub color_manager: Option<ColorManager>,
    pub pipeline_cache: Option<PipelineCache>,
    pub show_fps: bool,
    pub last_repaint_id: u64,
    pub events_queue: Option<EventsQueue>,
}

impl Context {
    /// No subsystem attached, left-to-right text, no FPS display, last
    /// repaint 1.
    pub fn new() -> (c: Self)
        ensures
            c.backend is None,
            c.settings is None,
            c.stage_manager is None,
            c.text_direction == TextDirection::Ltr,
            c.color_manager is None,
            c.pipeline_cache is None,
            !c.show_fps,
            c.last_repaint_id == 1,
            c.events_queue is None,
    {
        Context {
            backend: None,
            settings: None,
            stage_manager: None,
            text_direction: TextDirection::Ltr,
            color_manager: None,
            pipeline_cache: None,
            show_fps: false,
            last_repaint_id: 1,
            events_queue: None,
        }
    }

    /// The backend.
    pub fn get_backend(&self) -> (r: Option<Backend>)
        ensures
            r == self.backend,
    {
        self.backend
    }

    /// Sets the backend.
    pub fn set_backend(&mut self, value: Backend)
        ensures
            final(self).backend == Some(value),
            final(self).settings == old(self).settings,
            final(self).stage_manager == old(self).stage_manager,
            final(self).color_manager == old(self).color_manager,
            final(self).pipeline_cache == old(self).pipeline_cache,
            final(self).events_queue == old(self).events_queue,
            final(self).text_direction == old(self).text_direction,
            final(self).show_fps == old(self).show_fps,
            final(self).last_repaint_id == old(self).last_repaint_id,
    {
        self.backend = Some(value);
    }

    /// The settings.
    pub fn get_settings(&self) -> (r: Option<Settings>)
        ensures
            r == self.settings,
    {
        self.settings
    }

    /// Sets the settings.
    pub fn set_settings(&mut self, value: Settings)
        ensures
            final(self).settings == Some(value),
            final(self).backend == old(self).backend,
            final(self).stage_manager == old(self).stage_manager,
            final(self).color_manager == old(self).color_manager,
            final(self).pipeline_cache == old(self).pipeline_cache,
            final(self).events_queue == old(self).events_queue,
            final(self).text_direction == old(self).text_direction,
            final(self).show_fps == old(self).show_fps,
            final(self).last_repaint_id == old(self).last_repaint_id,
    {
        self.settings = Some(value);
    }

    /// The stage manager.
    pub fn get_stage_manager(&self) -> (r: Option<StageManager>)
        ensures
            r == self.stage_manager,
    {
        self.stage_manager
    }

    /// Sets the stage manager.
    pub fn set_stage_manager(&mut self, value: StageManager)
        ensures
            final(self).stage_manager == Some(value),
            final(self).backend == old(self).backend,
            final(self).settings == old(self).settings,
            final(self).color_manager == old(self).color_manager,
            final(self).pipeline_cache == old(self).pipeline_cache,
            final(self).events_queue == old(self).events_queue,
            final(self).text_direction == old(self).text_direction,
            final(self).show_fps == old(self).show_fps,
            final(self).last_repaint_id == old(self).last_repaint_id,
    {
        self.stage_manager = Some(value);
    }

    /// The color manager.
    pub fn get_color_manager(&self) -> (r: Option<ColorManager>)
        ensures
            r == self.color_manager,
    {
        self.color_manager
    }

    /// Sets the color manager.
    pub fn set_color_manager(&mut self, value: ColorManager)
        ensures
            final(self).color_manager == Some(value),
            final(self).backend == old(self).backend,
            final(self).settings == old(self).settings,
            final(self).stage_manager == old(self).stage_manager,
            final(self).pipeline_cache == old(self).pipeline_cache,
            final(self).events_queue == old(self).events_queue,
            final(self).text_direction == old(self).text_direction,
            final(self).show_fps == old(self).show_fps,
            final(self).last_repaint_id == old(self).last_repaint_id,
    {
        self.color_manager = Some(value);
    }

    /// The pipeline cache.
    pub fn get_pipeline_cache(&self) -> (r: Option<PipelineCache>)
        ensures
            r == self.pipeline_cache,
    {
        self.pipeline_cache
    }

    /// Sets the pipeline cache.
    pub fn set_pipeline_cache(&mut self, value: PipelineCache)
        ensures
            final(self).pipeline_cache == Some(value),
            final(self).backend == old(self).backend,
            final(self).settings == old(self).settings,
            final(self).stage_manager == old(self).stage_manager,
            final(self).color_manager == old(self).color_manager,
            final(self).events_queue == old(self).events_queue,
            final(self).text_direction == old(self).text_direction,
            final(self).show_fps == old(self).show_fps,
            final(self).last_repaint_id == old(self).last_repaint_id,
    {
        self.pipeline_cache = Some(value);
    }

    /// The events queue.
    pub fn get_events_queue(&self) -> (r: Option<EventsQueue>)
        ensures
            r == self.events_queue,
    {
        self.events_queue
    }

    /// Sets the events queue.
    pub fn set_events_queue(&mut self, value: EventsQueue)
        ensures
            final(self).events_queue == Some(value),
            final(self).backend == old(self).backend,
            final(self).settings == old(self).settings,
            final(self).stage_manager == old(self).stage_manager,
            final(self).color_manager == old(self).color_manager,
            final(self).pipeline_cache == old(self).pipeline_cache,
            final(self).text_direction == old(self).text_direction,
            final(self).show_fps == old(self).show_fps,
            final(self).last_repaint_id == old(self).last_repaint_id,
    {
        self.events_queue = Some(value);
    }

    /// The text direction.
    pub fn get_text_direction(&self) -> (r: TextDirection)
        ensures
            r == self.text_direction,
    {
        self.text_direction
    }

    /// Sets the text direction.
    pub fn set_text_direction(&mut self, value: TextDirection)
        ensures
            final(self).text_direction == value,
            final(self).backend == old(self).backend,
            final(self).settings == old(self).settings,
            final(self).stage_manager == old(self).stage_manager,
            final(self).color_manager == old(self).color_manager,
            final(self).pipeline_cache == old(self).pipeline_cache,
            final(self).events_queue == old(self).events_queue,
            final(self).show_fps == old(self).show_fps,
            final(self).last_repaint_id == old(self).last_repaint_id,
    {
        self.text_direction = value;
    }

    /// Whether the frame rate is shown.
    pub fn get_show_fps(&self) -> (r: bool)
        ensures
            r == self.show_fps,
    {
        self.show_fps
    }

    /// Sets whether the frame rate is shown.
    pub fn set_show_fps(&mut self, value: bool)
        ensures
            final(self).show_fps == value,
            final(self).backend == old(self).backend,
            final(self).settings == old(self).settings,
            final(self).stage_manager == old(self).stage_manager,
            final(self).color_manager == old(self).color_manager,
            final(self).pipeline_cache == old(self).pipeline_cache,
            final(self).events_queue == old(self).events_queue,
            final(self).text_direction == old(self).text_direction,
            final(self).last_repaint_id == old(self).last_repaint_id,
    {
        self.show_fps = value;
    }

    /// The last repaint id.
    pub fn get_last_repaint_id(&self) -> (r: u64)
        ensures
            r == self.last_repaint_id,
    {
        self.last_repaint_id
    }

    /// Sets the last repaint id.
    pub fn set_last_repaint_id(&mut self, value: u64)
        ensures
            final(self).last_repaint_id == value,
            final(self).backend == old(self).backend,
            final(self).settings == old(self).settings,
            final(self).stage_manager == old(self).stage_manager,
            final(self).color_manager == old(self).color_manager,
            final(self).pipeline_cache == old(self).pipeline_cache,
            final(self).events_queue == old(self).events_queue,
            final(self).text_direction == old(self).text_direction,
            final(self).show_fps == old(self).show_fps,
    {
        self.last_repaint_id = value;
    }
}

impl Default for Context {
    fn default() -> (c: Self)
        ensures
            c.backend is None,
            c.text_direction == TextDirection::Ltr,
            !c.show_fps,
            c.last_repaint_id == 1,
    {
        Context::new()
    }
}

} // verus!
