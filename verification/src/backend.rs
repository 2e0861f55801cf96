//! The platform backend: its feature flags, unit and filter enumerations,
//! the handles it hands out, the interface a platform implements, and the
//! state the backend keeps on top of it.
use vstd::prelude::*;

use crate::context::TextDirection;
use crate::seq_set::{insert_once, no_duplicates, remove_all};

verus! {

/// Optional backend features, as a bit set.
#[derive(Debug, Clone, Copy, PartialEq, Eq, Structural, Hash, Default)]
pub struct FeatureFlags(pub u32);

impl FeatureFlags {
    /// No feature.
    pub fn none() -> (r: Self)
        ensures
            r.0 == 0,
    {
        FeatureFlags(0)
    }

    /// The stage has a fixed size.
    pub fn stage_static() -> (r: Self)
        ensures
            r.0 == 1,
    {
        FeatureFlags(1)
    }

    /// The user can resize the stage.
    pub fn stage_user_resize() -> (r: Self)
        ensures
            r.0 == 2,
    {
        FeatureFlags(2)
    }

    /// The stage can show a cursor.
    pub fn stage_cursor() -> (r: Self)
        ensures
            r.0 == 4,
    {
        FeatureFlags(4)
    }

    /// GLSL shaders are available.
    pub fn shaders_glsl() -> (r: Self)
        ensures
            r.0 == 8,
    {
        FeatureFlags(8)
    }

    /// YUV textures are available.
    pub fn texture_yuv() -> (r: Self)
        ensures
            r.0 == 16,
    {
        FeatureFlags(16)
    }

    /// Texture contents can be read back.
    pub fn texture_read_pixels() -> (r: Self)
        ensures
            r.0 == 32,
    {
        FeatureFlags(32)
    }

    /// The stage resolution can change.
    pub fn stage_dynamic_resolution() -> (r: Self)
        ensures
            r.0 == 64,
    {
        FeatureFlags(64)
    }

    /// The set holding the bits of both operands.
    pub fn union(self, other: Self) -> (r: Self)
        ensures
            r.0 == self.0 | other.0,
    {
        FeatureFlags(self.0 | other.0)
    }

    /// Whether every bit of `other` is set in `self`.
    pub fn contains(self, other: Self) -> (r: bool)
        ensures
            r == (self.0 & other.0 == other.0),
    {
        (self.0 & other.0) == other.0
    }

}

/// The unit system a layout measures in.
#[derive(Debug, Clone, Copy, PartialEq, Eq, Structural, Hash, Default)]
pub enum UnitType {
    #[default]
    Pixel,
    Em,
    Mm,
    Point,
    Cm,
}

/// The filter used when scaling a texture.
#[derive(Debug, Clone, Copy, PartialEq, Eq, Structural, Hash, Default)]
pub enum ScalingFilter {
    #[default]
    Nearest,
    Linear,
    Trilinear,
}

/// Handle of a graphics context.
#[derive(Debug, Clone, Copy, PartialEq, Eq, Structural)]
pub struct CoglContext {
    pub handle: u32,
}

/// Handle of a stage window.
#[derive(Debug, Clone, Copy, PartialEq, Eq, Structural)]
pub struct StageWindow {
    pub handle: u32,
}

/// Handle of the stage manager.
#[derive(Debug, Clone, Copy, PartialEq, Eq, Structural)]
pub struct StageManager {
    pub handle: u32,
}

/// Handle of an input method.
#[derive(Debug, Clone, Copy, PartialEq, Eq, Structural)]
pub struct InputMethod {
    pub handle: u32,
}

/// The identifier of a stage.
#[derive(Debug, Clone, Copy, PartialEq, Eq, Structural, Hash, PartialOrd, Ord)]
pub struct StageId(pub u32);

/// What a platform provides to the backend. Every query has a neutral
/// default: nothing, no feature, zero, off.
pub trait BackendImpl {
    /// The platform's stage manager, if it has one.
    fn get_stage_manager(&self) -> (r: Option<StageManager>)
        default_ensures
            r is None,
    {
        None
    }

    /// Creates a graphics context.
    fn create_context(&mut self) -> (r: Option<CoglContext>)
        default_ensures
            r is None,
    {
        None
    }

    /// Prepares the graphics context for `stage`.
    fn ensure_context(&mut self, _stage: StageId) {
    }

    /// Told that `stage` was added.
    fn add_stage(&mut self, _stage: StageId) {
    }

    /// Told that `stage` was removed.
    fn remove_stage(&mut self, _stage: StageId) {
    }

    /// The optional features the platform supports.
    fn get_features(&self) -> (r: FeatureFlags)
        default_ensures
            r.0 == 0,
    {
        FeatureFlags(0)
    }

    /// The largest texture side the platform allows.
    fn get_max_texture_size(&self) -> (r: i32)
        default_ensures
            r == 0,
    {
        0
    }

    /// The age of the back buffer of `stage`.
    fn get_buffer_age(&self, _stage: StageId) -> (r: i32)
        default_ensures
            r == 0,
    {
        0
    }

    /// The platform's sync delay; 0 when it has none.
    fn get_sync_delay(&self) -> (r: i32)
        default_ensures
            r == 0,
    {
        0
    }

    /// Told the sync delay.
    fn set_sync_delay(&mut self, _delay: i32) {
    }

    /// The platform's stage window, if it has one.
    fn get_stage_window(&self) -> (r: Option<StageWindow>)
        default_ensures
            r is None,
    {
        None
    }

    /// Told the stage window.
    fn set_stage_window(&mut self, _window: StageWindow) {
    }

    /// The platform's input method, if it has one.
    fn get_input_method(&self) -> (r: Option<InputMethod>)
        default_ensures
            r is None,
    {
        None
    }

    /// Told the input method.
    fn set_input_method(&mut self, _method: InputMethod) {
    }

    /// Whether the platform reports Caps Lock on.
    fn get_caps_lock_state(&self) -> (r: bool)
        default_ensures
            r == false,
    {
        false
    }

    /// Told the Caps Lock state.
    fn set_caps_lock_state(&mut self, _state: bool) {
    }

    /// Whether the platform reports Num Lock on.
    fn get_num_lock_state(&self) -> (r: bool)
        default_ensures
            r == false,
    {
        false
    }

    /// Told the Num Lock state.
    fn set_num_lock_state(&mut self, _state: bool) {
    }
}

/// A platform that provides nothing.
#[derive(Debug, Default)]
pub struct NullBackend;

impl BackendImpl for NullBackend {
}

/// The state the backend keeps itself, apart from its platform.
pub struct BackendState {
    pub context: Option<u32>,
    pub cogl_context: Option<CoglContext>,
    pub stage_manager: Option<StageManager>,
    pub stage_window: Option<StageWindow>,
    pub text_direction: TextDirection,
    pub has_changed_dpi: bool,
    pub sync_delay: i32,
    pub input_method: Option<InputMethod>,
    pub caps_lock_state: bool,
    pub num_lock_state: bool,
    pub allowed_units: UnitType,
    pub stages: Seq<StageId>,
}

/// The state of a new backend: nothing set, left-to-right text, pixels,
/// no stage.
pub open spec fn initial_backend_state() -> BackendState {
    BackendState {
        context: None,
        cogl_context: None,
        stage_manager: None,
        stage_window: None,
        text_direction: TextDirection::Ltr,
        has_changed_dpi: false,
        sync_delay: 0,
        input_method: None,
        caps_lock_state: false,
        num_lock_state: false,
        allowed_units: UnitType::Pixel,
        stages: Seq::empty(),
    }
}

/// The backend over a platform `B`. The platform is asked first for what it
/// may provide; the backend's own values stand in where it provides none.
pub struct Backend<B> {
    context: Option<u32>,
    cogl_context: Option<CoglContext>,
    stage_manager: Option<StageManager>,
    stage_window: Option<StageWindow>,
    text_direction: TextDirection,
    has_changed_dpi: bool,
    sync_delay: i32,
    input_method: Option<InputMethod>,
    caps_lock_state: bool,
    num_lock_state: bool,
    allowed_units_mask: UnitType,
    stages: Vec<StageId>,
    impl_: B,
}

impl<B> View for Backend<B> {
    type V = BackendState;

    closed spec fn view(&self) -> BackendState {
        BackendState {
            context: self.context,
            cogl_context: self.cogl_context,
            stage_manager: self.stage_manager,
            stage_window: self.stage_window,
            text_direction: self.text_direction,
            has_changed_dpi: self.has_changed_dpi,
            sync_delay: self.sync_delay,
            input_method: self.input_method,
            caps_lock_state: self.caps_lock_state,
            num_lock_state: self.num_lock_state,
            allowed_units: self.allowed_units_mask,
            stages: self.stages@,
        }
    }
}

impl<B: BackendImpl> Backend<B> {
    /// Validity: no stage is registered twice.
    pub open spec fn wf(&self) -> bool {
        no_duplicates(self@.stages)
    }

    /// The platform.
    pub closed spec fn platform(&self) -> B {
        self.impl_
    }

    /// A backend over `impl_` in its initial state.
    pub fn new(impl_: B) -> (b: Self)
        ensures
            b.wf(),
            b@ == initial_backend_state(),
            b.platform() == impl_,
    {
        Backend {
            context: None,
            cogl_context: None,
            stage_manager: None,
            stage_window: None,
            text_direction: TextDirection::Ltr,
            has_changed_dpi: false,
            sync_delay: 0,
            input_method: None,
            caps_lock_state: false,
            num_lock_state: false,
            allowed_units_mask: UnitType::Pixel,
            stages: Vec::new(),
            impl_,
        }
    }

    /// The context id, if set.
    pub fn get_context(&self) -> (r: Option<u32>)
        ensures
            r == self@.context,
    {
        self.context
    }

    /// Sets the context id.
    pub fn set_context(&mut self, context: u32)
        ensures
            final(self)@ == (BackendState { context: Some(context), ..old(self)@ }),
            final(self).platform() == old(self).platform(),
    {
        self.context = Some(context);
    }

    /// The platform's stage manager, or else the one set here: whatever
    /// the platform says, the result is some manager or the one set here.
    pub fn get_stage_manager(&mut self) -> (r: Option<StageManager>)
        ensures
            *final(self) == *old(self),
            r is Some || r == old(self)@.stage_manager,
    {
        let platform = self.impl_.get_stage_manager();
        self.stage_manager_from_platform(platform)
    }

    /// The stage manager, given what the platform answered: the platform's
    /// when it has one, else the one set here.
    pub fn stage_manager_from_platform(&self, platform: Option<StageManager>) -> (r: Option<StageManager>)
        ensures
            r == (match platform {
                Some(m) => Some(m),
                None => self@.stage_manager,
            }),
    {
        match platform {
            Some(m) => Some(m),
            None => self.stage_manager,
        }
    }

    /// Sets the stage manager used when the platform has none.
    pub fn set_stage_manager(&mut self, manager: StageManager)
        ensures
            final(self)@ == (BackendState { stage_manager: Some(manager), ..old(self)@ }),
            final(self).platform() == old(self).platform(),
    {
        self.stage_manager = Some(manager);
    }

    /// The graphics context, if there is one.
    pub fn get_cogl_context(&self) -> (r: Option<&CoglContext>)
        ensures
            r == match self@.cogl_context {
                Some(c) => Some(&c),
                None => None,
            },
    {
        self.cogl_context.as_ref()
    }

    /// Sets the graphics context.
    pub fn set_cogl_context(&mut self, ctx: CoglContext)
        ensures
            final(self)@ == (BackendState { cogl_context: Some(ctx), ..old(self)@ }),
            final(self).platform() == old(self).platform(),
    {
        self.cogl_context = Some(ctx);
    }

    /// Records a change of the font resolution: once `changed` was given
    /// true, the backend reports a changed resolution until cleared.
    pub fn record_dpi_change(&mut self, changed: bool)
        ensures
            final(self)@ == (BackendState {
                has_changed_dpi: old(self)@.has_changed_dpi || changed,
                ..old(self)@
            }),
            final(self).platform() == old(self).platform(),
    {
        if changed {
            self.has_changed_dpi = true;
        }
    }

    /// Whether the font resolution changed since the last clear.
    pub fn has_changed_dpi(&self) -> (r: bool)
        ensures
            r == self@.has_changed_dpi,
    {
        self.has_changed_dpi
    }

    /// Forgets that the font resolution changed.
    pub fn clear_dpi_changed(&mut self)
        ensures
            final(self)@ == (BackendState { has_changed_dpi: false, ..old(self)@ }),
            final(self).platform() == old(self).platform(),
    {
        self.has_changed_dpi = false;
    }

    /// The text direction.
    pub fn get_text_direction(&self) -> (r: TextDirection)
        ensures
            r == self@.text_direction,
    {
        self.text_direction
    }

    /// Sets the text direction.
    pub fn set_text_direction(&mut self, dir: TextDirection)
        ensures
            final(self)@ == (BackendState { text_direction: dir, ..old(self)@ }),
            final(self).platform() == old(self).platform(),
    {
        self.text_direction = dir;
    }

    /// The platform's stage window, or else the one set here.
    pub fn get_stage_window(&mut self) -> (r: Option<StageWindow>)
        ensures
            *final(self) == *old(self),
            r is Some || r == old(self)@.stage_window,
    {
        let platform = self.impl_.get_stage_window();
        self.stage_window_from_platform(platform)
    }

    /// The stage window, given what the platform answered: the platform's
    /// when it has one, else the one set here.
    pub fn stage_window_from_platform(&self, platform: Option<StageWindow>) -> (r: Option<StageWindow>)
        ensures
            r == (match platform {
                Some(w) => Some(w),
                None => self@.stage_window,
            }),
    {
        match platform {
            Some(w) => Some(w),
            None => self.stage_window,
        }
    }

    /// Hands `window` to the platform and keeps it.
    pub fn set_stage_window(&mut self, window: StageWindow)
        ensures
            final(self)@ == (BackendState { stage_window: Some(window), ..old(self)@ }),
    {
        self.impl_.set_stage_window(window);
        self.stage_window = Some(window);
    }

    /// Asks the platform for a graphics context; the state is kept.
    pub fn create_context(&mut self) -> (r: Option<CoglContext>)
        ensures
            final(self)@ == old(self)@,
    {
        self.impl_.create_context()
    }

    /// Makes sure a graphics context exists, asking the platform for one
    /// when there is none, then lets the platform prepare `stage`. A context
    /// that exists is kept; nothing else of the state changes.
    pub fn ensure_context(&mut self, stage: StageId)
        ensures
            old(self)@.cogl_context is Some ==> final(self)@ == old(self)@,
            final(self)@ == (BackendState { cogl_context: final(self)@.cogl_context, ..old(self)@ }),
    {
        if self.cogl_context.is_none() {
            let created = self.create_context();
            self.adopt_context(created);
        }
        self.impl_.ensure_context(stage);
    }

    /// Keeps the graphics context `created` by the platform when there is
    /// none yet; a context that exists stays, and so does the rest.
    pub fn adopt_context(&mut self, created: Option<CoglContext>)
        ensures
            final(self)@ == (if old(self)@.cogl_context is None && created is Some {
                BackendState { cogl_context: created, ..old(self)@ }
            } else {
                old(self)@
            }),
            final(self).platform() == old(self).platform(),
    {
        if self.cogl_context.is_none() {
            if let Some(ctx) = created {
                self.cogl_context = Some(ctx);
            }
        }
    }

    /// Registers `stage` unless it is registered, and tells the platform.
    pub fn add_stage(&mut self, stage: StageId)
        requires
            old(self).wf(),
        ensures
            final(self).wf(),
            final(self)@ == (BackendState { stages: insert_once(old(self)@.stages, stage), ..old(self)@ }),
    {
        if !self.has_stage(stage) {
            proof {
                crate::seq_set::lemma_push_absent_no_duplicates(self@.stages, stage);
            }
            self.stages.push(stage);
        }
        self.impl_.add_stage(stage);
    }

    /// Whether `stage` is registered.
    fn has_stage(&self, stage: StageId) -> (r: bool)
        ensures
            r == self@.stages.contains(stage),
    {
        let mut i: usize = 0;
        while i < self.stages.len()
            invariant
                i <= self.stages@.len(),
                forall|j: int| 0 <= j < i ==> self.stages@[j] != stage,
            decreases self.stages@.len() - i,
        {
            if self.stages[i] == stage {
                assert(self@.stages[i as int] == stage);
                return true;
            }
            i += 1;
        }
        false
    }

    /// Unregisters `stage`, and tells the platform.
    pub fn remove_stage(&mut self, stage: StageId)
        requires
            old(self).wf(),
        ensures
            final(self).wf(),
            final(self)@ == (BackendState { stages: remove_all(old(self)@.stages, stage), ..old(self)@ }),
    {
        let mut kept: Vec<StageId> = Vec::new();
        let mut i: usize = 0;
        while i < self.stages.len()
            invariant
                i <= self.stages@.len(),
                self@ == old(self)@,
                kept@ == remove_all(self@.stages.take(i as int), stage),
            decreases self.stages@.len() - i,
        {
            proof {
                crate::seq_set::lemma_filter_take_step(self@.stages, stage, i as int);
            }
            if self.stages[i] != stage {
                kept.push(self.stages[i]);
            }
            i += 1;
        }
        assert(self@.stages.take(self@.stages.len() as int) =~= self@.stages);
        proof {
            crate::seq_set::lemma_filter_no_duplicates(old(self)@.stages, stage);
        }
        self.stages = kept;
        self.impl_.remove_stage(stage);
    }

    /// The registered stages, in registration order.
    pub fn stages(&self) -> (r: &[StageId])
        ensures
            r@ == self@.stages,
    {
        self.stages.as_slice()
    }

    /// The number of registered stages.
    pub fn n_stages(&self) -> (r: usize)
        ensures
            r == self@.stages.len(),
    {
        self.stages.len()
    }

    /// The features the platform supports.
    pub fn get_features(&self) -> FeatureFlags {
        self.impl_.get_features()
    }

    /// The largest texture side the platform allows.
    pub fn get_max_texture_size(&self) -> i32 {
        self.impl_.get_max_texture_size()
    }

    /// The age of the back buffer of `stage`.
    pub fn get_buffer_age(&self, stage: StageId) -> i32 {
        self.impl_.get_buffer_age(stage)
    }

    /// The platform's sync delay when it is not 0, else the one set here:
    /// whatever the platform says, the result is non-zero or the delay set
    /// here.
    pub fn get_sync_delay(&self) -> (r: i32)
        ensures
            r != 0 || r == self@.sync_delay,
    {
        let platform = self.impl_.get_sync_delay();
        self.sync_delay_from_platform(platform)
    }

    /// The sync delay, given what the platform answered: the platform's
    /// when it is not 0, else the one set here.
    pub fn sync_delay_from_platform(&self, platform: i32) -> (r: i32)
        ensures
            r == (if platform != 0 {
                platform
            } else {
                self@.sync_delay
            }),
    {
        if platform != 0 {
            platform
        } else {
            self.sync_delay
        }
    }

    /// Hands `delay` to the platform and keeps it.
    pub fn set_sync_delay(&mut self, delay: i32)
        ensures
            final(self)@ == (BackendState { sync_delay: delay, ..old(self)@ }),
    {
        self.impl_.set_sync_delay(delay);
        self.sync_delay = delay;
    }

    /// The platform's input method, or else the one set here.
    pub fn get_input_method(&mut self) -> (r: Option<InputMethod>)
        ensures
            *final(self) == *old(self),
            r is Some || r == old(self)@.input_method,
    {
        let platform = self.impl_.get_input_method();
        self.input_method_from_platform(platform)
    }

    /// The input method, given what the platform answered: the platform's
    /// when it has one, else the one set here.
    pub fn input_method_from_platform(&self, platform: Option<InputMethod>) -> (r: Option<InputMethod>)
        ensures
            r == (match platform {
                Some(im) => Some(im),
                None => self@.input_method,
            }),
    {
        match platform {
            Some(im) => Some(im),
            None => self.input_method,
        }
    }

    /// Hands `method` to the platform and keeps it.
    pub fn set_input_method(&mut self, method: InputMethod)
        ensures
            final(self)@ == (BackendState { input_method: Some(method), ..old(self)@ }),
    {
        self.impl_.set_input_method(method);
        self.input_method = Some(method);
    }

    /// Caps Lock is on when the platform or the backend says so: on
    /// whenever the state set here is on.
    pub fn get_caps_lock_state(&self) -> (r: bool)
        ensures
            self@.caps_lock_state ==> r,
    {
        let platform = self.impl_.get_caps_lock_state();
        self.caps_lock_from_platform(platform)
    }

    /// The Caps Lock state, given what the platform answered: on when the
    /// platform or the state set here says so.
    pub fn caps_lock_from_platform(&self, platform: bool) -> (r: bool)
        ensures
            r == (platform || self@.caps_lock_state),
    {
        platform || self.caps_lock_state
    }

    /// Hands the Caps Lock state to the platform and keeps it.
    pub fn set_caps_lock_state(&mut self, state: bool)
        ensures
            final(self)@ == (BackendState { caps_lock_state: state, ..old(self)@ }),
    {
        self.impl_.set_caps_lock_state(state);
        self.caps_lock_state = state;
    }

    /// Num Lock is on when the platform or the backend says so: on
    /// whenever the state set here is on.
    pub fn get_num_lock_state(&self) -> (r: bool)
        ensures
            self@.num_lock_state ==> r,
    {
        let platform = self.impl_.get_num_lock_state();
        self.num_lock_from_platform(platform)
    }

    /// The Num Lock state, given what the platform answered: on when the
    /// platform or the state set here says so.
    pub fn num_lock_from_platform(&self, platform: bool) -> (r: bool)
        ensures
            r == (platform || self@.num_lock_state),
    {
        platform || self.num_lock_state
    }

    /// Hands the Num Lock state to the platform and keeps it.
    pub fn set_num_lock_state(&mut self, state: bool)
        ensures
            final(self)@ == (BackendState { num_lock_state: state, ..old(self)@ }),
    {
        self.impl_.set_num_lock_state(state);
        self.num_lock_state = state;
    }

    /// The unit system layouts may use.
    pub fn get_allowed_units(&self) -> (r: UnitType)
        ensures
            r == self@.allowed_units,
    {
        self.allowed_units_mask
    }

    /// Sets the unit system layouts may use.
    pub fn set_allowed_units(&mut self, units: UnitType)
        ensures
            final(self)@ == (BackendState { allowed_units: units, ..old(self)@ }),
            final(self).platform() == old(self).platform(),
    {
        self.allowed_units_mask = units;
    }
}

impl Default for Backend<NullBackend> {
    /// A backend over a platform that provides nothing.
    fn default() -> (b: Self)
        ensures
            b.wf(),
            b@ == initial_backend_state(),
    {
        Backend::new(NullBackend)
    }
}

/// Registering a stage twice registers it once, and registering an
/// unregistered stage and removing it again gives back the stages.
pub proof fn law_stage_registration(stages: Seq<StageId>, stage: StageId)
    requires
        no_duplicates(stages),
    ensures
        insert_once(insert_once(stages, stage), stage) == insert_once(stages, stage),
        !stages.contains(stage) ==> remove_all(insert_once(stages, stage), stage) == stages,
        insert_once(stages, stage).contains(stage),
        !remove_all(stages, stage).contains(stage),
{
    crate::seq_set::law_membership_set(stages, stage, stage);
    if !stages.contains(stage) {
        crate::seq_set::law_add_then_remove_restores(stages, stage);
    }
}

} // verus!
