use vstd::prelude::*;

verus! {

/// A Panini camera projection: the shader settings `S` that the post-processing pass reads,
/// the perspective projection `P` that the camera keeps using, and a master switch for
/// the post-processing.
#[derive(Clone, Debug)]
pub struct PaniniProjection<S, P> {
    settings: S,
    perspective: P,
    enabled: bool,
}

/// What a Panini projection is, as the contracts see it.
pub struct ProjectionModel<S, P> {
    /// The shader settings that the post-processing pass reads.
    pub settings: S,
    /// The perspective projection that the camera keeps using.
    pub perspective: P,
    /// Whether the post-processing is switched on.
    pub enabled: bool,
}

/// What one frame does with the shader settings of a camera whose projection is Panini.
#[derive(Clone, Copy, Debug)]
pub enum SettingsCommand<T> {
    /// Put these settings on the camera, replacing any that it has.
    Insert(T),
    /// Take the shader settings off the camera.
    Remove,
}

impl<S, P> View for PaniniProjection<S, P> {
    type V = ProjectionModel<S, P>;

    closed spec fn view(&self) -> ProjectionModel<S, P> {
        ProjectionModel {
            settings: self.settings,
            perspective: self.perspective,
            enabled: self.enabled,
        }
    }
}

impl<S, P> ProjectionModel<S, P> {
    /// The same projection with the master switch set to `enabled`.
    pub open spec fn switched(self, enabled: bool) -> Self {
        ProjectionModel { settings: self.settings, perspective: self.perspective, enabled }
    }

    /// The same projection with other settings and perspective, and the same switch.
    pub open spec fn with_parts(self, settings: S, perspective: P) -> Self {
        ProjectionModel { settings, perspective, enabled: self.enabled }
    }
}

impl<S, P> PaniniProjection<S, P> {
    /// A new projection from its shader settings and perspective; the post-processing
    /// starts switched on.
    pub fn new(settings: S, perspective: P) -> (r: Self)
        ensures
            r@ == (ProjectionModel { settings, perspective, enabled: true }),
    {
        PaniniProjection { settings, perspective, enabled: true }
    }

    /// Sets the master switch of the post-processing and hands the projection back.
    pub fn with_enabled(self, enabled: bool) -> (r: Self)
        ensures
            r@ == self@.switched(enabled),
    {
        let mut this = self;
        this.update_enabled(enabled);
        this
    }

    /// Sets the master switch of the post-processing.
    pub fn update_enabled(&mut self, enabled: bool)
        ensures
            final(self)@ == old(self)@.switched(enabled),
    {
        self.enabled = enabled;
    }

    /// Whether the post-processing is switched on.
    pub fn is_enabled(&self) -> (r: bool)
        ensures
            r == self@.enabled,
    {
        self.enabled
    }

    /// The shader settings of the projection.
    pub fn settings(&self) -> (r: &S)
        ensures
            *r == self@.settings,
    {
        &self.settings
    }

    /// The perspective projection that the camera keeps using.
    pub fn perspective(&self) -> (r: &P)
        ensures
            *r == self@.perspective,
    {
        &self.perspective
    }

    /// Both parts of the projection for editing; the switch stays as it was.
    pub fn parts_mut(&mut self) -> (r: (&mut S, &mut P))
        ensures
            *r.0 == old(self)@.settings,
            *r.1 == old(self)@.perspective,
            final(self)@ == old(self)@.with_parts(*final(r.0), *final(r.1)),
    {
        (&mut self.settings, &mut self.perspective)
    }
}

/// The command for a camera whose Panini projection has the switch `enabled` and the
/// shader settings `settings`.
pub open spec fn command_for<T>(enabled: bool, settings: T) -> SettingsCommand<T> {
    if enabled {
        SettingsCommand::Insert(settings)
    } else {
        SettingsCommand::Remove
    }
}

/// Decides what a frame does with the shader settings of a camera: nothing where its
/// projection is not a Panini projection; where it is, the projection's own settings go on
/// the camera while the post-processing is switched on, and come off it while it is off.
pub fn copy_out_shader_settings<'a, S, P>(
    projection: Option<&'a PaniniProjection<S, P>>,
) -> (r: Option<SettingsCommand<&'a S>>)
    ensures
        r == (match projection {
            Some(p) => Some(command_for(p@.enabled, &p@.settings)),
            None => None,
        }),
{
    match projection {
        Some(p) => if p.is_enabled() {
            Some(SettingsCommand::Insert(p.settings()))
        } else {
            Some(SettingsCommand::Remove)
        },
        None => None,
    }
}

/// A projection is determined by what the contracts see of it.
pub proof fn lemma_model_determines<S, P>(p: PaniniProjection<S, P>, q: PaniniProjection<S, P>)
    requires
        p@ == q@,
    ensures
        p == q,
{
    assert(p.settings == p@.settings && q.settings == q@.settings);
}

/// Switching the post-processing on or off is read back by `is_enabled`, and leaves the
/// shader settings and the perspective as they were.
pub proof fn lemma_switch_read_back<S, P>(m: ProjectionModel<S, P>, enabled: bool)
    ensures
        m.switched(enabled).enabled == enabled,
        m.switched(enabled).settings == m.settings,
        m.switched(enabled).perspective == m.perspective,
{
}

/// Of two settings of the switch, the later one wins.
pub proof fn lemma_switch_last_wins<S, P>(m: ProjectionModel<S, P>, first: bool, second: bool)
    ensures
        m.switched(first).switched(second) == m.switched(second),
{
}

/// Switching the post-processing off (or on) and back to what it was gives back the same
/// projection: nothing of it is lost while the effect is off.
pub proof fn lemma_switch_restores<S, P>(m: ProjectionModel<S, P>, meanwhile: bool)
    ensures
        m.switched(meanwhile).switched(m.enabled) == m,
{
}

/// Editing the shader settings or the perspective leaves the switch as it was, and
/// edits what it was asked to.
pub proof fn lemma_edit_keeps_switch<S, P>(m: ProjectionModel<S, P>, settings: S, perspective: P)
    ensures
        m.with_parts(settings, perspective).enabled == m.enabled,
        m.with_parts(settings, perspective).settings == settings,
        m.with_parts(settings, perspective).perspective == perspective,
{
}

/// The switch is a master switch: once set, whatever the settings are edited to afterwards,
/// a frame puts exactly those settings on the camera while it is on, and takes the settings
/// off while it is off.
pub proof fn lemma_master_switch<S, P>(
    m: ProjectionModel<S, P>,
    enabled: bool,
    settings: S,
    perspective: P,
)
    ensures
        ({
            let q = m.switched(enabled).with_parts(settings, perspective);
            command_for(q.enabled, q.settings) == if enabled {
                SettingsCommand::Insert(settings)
            } else {
                SettingsCommand::<S>::Remove
            }
        }),
{
}

} // verus!
