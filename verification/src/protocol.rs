//! The host's data model: surface configuration, session-lock state and the
//! commands that the HTTP side hands to the GTK side.

use vstd::prelude::*;

verus! {

/// Lifecycle state reported by the session-lock compositor protocol.
#[derive(Clone, Copy, Debug, PartialEq, Eq, Structural)]
pub enum SessionLockState {
    /// No session lock is active.
    Unlocked,
    /// Lock was requested and awaits compositor confirmation.
    Pending,
    /// Compositor confirmed session lock.
    Locked,
    /// Compositor rejected or failed the lock request.
    Failed,
}

impl Default for SessionLockState {
    fn default() -> (state: Self)
        ensures
            state == SessionLockState::Unlocked,
    {
        SessionLockState::Unlocked
    }
}

/// Stacking layer requested from wlr-layer-shell.
#[derive(Clone, Copy, Debug, PartialEq, Eq, Structural)]
pub enum Layer {
    /// Behind regular application windows.
    Background,
    /// Below the top layer but above normal windows.
    Bottom,
    /// Above normal application windows.
    Top,
    /// Above every other layer.
    Overlay,
}

impl Default for Layer {
    fn default() -> (layer: Self)
        ensures
            layer == Layer::Top,
    {
        Layer::Top
    }
}

/// Keyboard focus behavior requested from wlr-layer-shell.
#[derive(Clone, Copy, Debug, PartialEq, Eq, Structural)]
pub enum KeyboardMode {
    /// Never request keyboard focus.
    NoFocus,
    /// Request focus only when the compositor considers it appropriate.
    OnDemand,
    /// Exclusively receive keyboard focus.
    Exclusive,
}

impl Default for KeyboardMode {
    fn default() -> (mode: Self)
        ensures
            mode == KeyboardMode::NoFocus,
    {
        KeyboardMode::NoFocus
    }
}

/// Edges to which the layer-shell surface is anchored.
#[derive(Clone, Copy, Debug, PartialEq, Eq, Structural)]
pub struct LayerShellAnchors {
    /// Anchor to the top edge.
    pub top: bool,
    /// Anchor to the bottom edge.
    pub bottom: bool,
    /// Anchor to the left edge.
    pub left: bool,
    /// Anchor to the right edge.
    pub right: bool,
}

impl Default for LayerShellAnchors {
    fn default() -> (anchors: Self)
        ensures
            !anchors.top && !anchors.bottom && !anchors.left && !anchors.right,
    {
        LayerShellAnchors { top: false, bottom: false, left: false, right: false }
    }
}

/// Per-edge layer-shell margins in logical pixels.
#[derive(Clone, Copy, Debug, PartialEq, Eq, Structural)]
pub struct LayerShellMargins {
    /// Top margin.
    pub top: i32,
    /// Bottom margin.
    pub bottom: i32,
    /// Left margin.
    pub left: i32,
    /// Right margin.
    pub right: i32,
}

impl Default for LayerShellMargins {
    fn default() -> (margins: Self)
        ensures
            margins.top == 0 && margins.bottom == 0 && margins.left == 0 && margins.right == 0,
    {
        LayerShellMargins { top: 0, bottom: 0, left: 0, right: 0 }
    }
}

/// Space reserved by the layer-shell surface.
#[derive(Clone, Copy, Debug, PartialEq, Eq, Structural)]
pub enum ExclusiveZone {
    /// Reserve no screen space.
    NoSpace,
    /// Let the compositor derive reserved space from surface size.
    Auto,
    /// Reserve an exact logical-pixel size.
    Fixed(i32),
}

impl Default for ExclusiveZone {
    fn default() -> (zone: Self)
        ensures
            zone == ExclusiveZone::NoSpace,
    {
        ExclusiveZone::NoSpace
    }
}


/// Width used when a layer-shell window spec leaves it out.
pub const DEFAULT_WINDOW_WIDTH: u32 = 500;

/// Height used when a layer-shell window spec leaves it out.
pub const DEFAULT_WINDOW_HEIGHT: u32 = 240;

/// A copy of an optional string that equals it.
pub fn duplicate_optional_string(value: &Option<String>) -> (copy: Option<String>)
    ensures
        copy == *value,
{
    match value {
        Some(text) => Some(text.clone()),
        None => None,
    }
}

/// Configuration for a wlr-layer-shell window.
///
/// `url` holds the serialization of an absolute URL.
#[derive(Clone, Debug)]
pub struct LayerShellWindowSpec {
    /// URL loaded in the window's web view.
    pub url: String,
    /// Optional compositor namespace used to identify this surface.
    pub namespace: Option<String>,
    /// Compositor layer for the surface.
    pub layer: Layer,
    /// Screen edges to which the surface is anchored.
    pub anchors: LayerShellAnchors,
    /// Space reserved from other surfaces.
    pub exclusive_zone: ExclusiveZone,
    /// Offset from each anchored screen edge, in logical pixels.
    pub margins: LayerShellMargins,
    /// Keyboard focus behavior for the surface.
    pub keyboard_mode: KeyboardMode,
    /// Optional logical width. Defaults to 500 when omitted.
    pub width: Option<u32>,
    /// Optional logical height. Defaults to 240 when omitted.
    pub height: Option<u32>,
    /// Output/monitor name. `None` lets the compositor choose.
    pub monitor: Option<String>,
    /// Whether the window is mapped and visible.
    pub visible: Option<bool>,
}

/// What a window's GTK surface is told about the exclusive zone: a fixed size,
/// or `None` for the compositor's automatic zone.
pub open spec fn spec_exclusive_zone_size(zone: ExclusiveZone) -> Option<i32> {
    match zone {
        ExclusiveZone::NoSpace => Some(0i32),
        ExclusiveZone::Auto => None,
        ExclusiveZone::Fixed(size) => Some(size),
    }
}

impl LayerShellWindowSpec {
    /// A copy of this spec that equals it.
    pub fn duplicate(&self) -> (copy: Self)
        ensures
            copy == *self,
    {
        LayerShellWindowSpec {
            url: self.url.clone(),
            namespace: duplicate_optional_string(&self.namespace),
            layer: self.layer,
            anchors: self.anchors,
            exclusive_zone: self.exclusive_zone,
            margins: self.margins,
            keyboard_mode: self.keyboard_mode,
            width: self.width,
            height: self.height,
            monitor: duplicate_optional_string(&self.monitor),
            visible: self.visible,
        }
    }

    /// The logical width to use: the given width, or 500.
    pub open spec fn spec_effective_width(&self) -> u32 {
        match self.width {
            Some(v) => v,
            None => DEFAULT_WINDOW_WIDTH,
        }
    }

    #[verifier::when_used_as_spec(spec_effective_width)]
    pub fn effective_width(&self) -> (width: u32)
        ensures
            width == match self.width {
                Some(w) => w,
                None => DEFAULT_WINDOW_WIDTH,
            },
    {
        match self.width {
            Some(w) => w,
            None => DEFAULT_WINDOW_WIDTH,
        }
    }

    /// The logical height to use: the given height, or 240.
    pub open spec fn spec_effective_height(&self) -> u32 {
        match self.height {
            Some(v) => v,
            None => DEFAULT_WINDOW_HEIGHT,
        }
    }

    #[verifier::when_used_as_spec(spec_effective_height)]
    pub fn effective_height(&self) -> (height: u32)
        ensures
            height == match self.height {
                Some(h) => h,
                None => DEFAULT_WINDOW_HEIGHT,
            },
    {
        match self.height {
            Some(h) => h,
            None => DEFAULT_WINDOW_HEIGHT,
        }
    }

    /// Whether the window should be shown: the given flag, or `true`.
    pub open spec fn spec_effective_visible(&self) -> bool {
        match self.visible {
            Some(v) => v,
            None => true,
        }
    }

    #[verifier::when_used_as_spec(spec_effective_visible)]
    pub fn effective_visible(&self) -> (visible: bool)
        ensures
            visible == match self.visible {
                Some(v) => v,
                None => true,
            },
    {
        match self.visible {
            Some(v) => v,
            None => true,
        }
    }

    /// The default size handed to GTK, whose sizes are `i32`: the effective width and
    /// height reinterpreted as `i32`, as a cast does.
    pub fn default_size(&self) -> (size: (i32, i32))
        ensures
            size.0 == self.effective_width() as i32,
            size.1 == self.effective_height() as i32,
    {
        (self.effective_width() as i32, self.effective_height() as i32)
    }

    /// The exclusive zone to set: `Some(size)` for a fixed size (0 when no space is
    /// reserved), `None` for the compositor's automatic zone.
    pub fn exclusive_zone_size(&self) -> (size: Option<i32>)
        ensures
            size == spec_exclusive_zone_size(self.exclusive_zone),
            self.exclusive_zone == ExclusiveZone::NoSpace ==> size == Some(0i32),
            self.exclusive_zone == ExclusiveZone::Auto ==> size is None,
            self.exclusive_zone matches ExclusiveZone::Fixed(n) ==> size == Some(n),
    {
        match self.exclusive_zone {
            ExclusiveZone::NoSpace => Some(0),
            ExclusiveZone::Auto => None,
            ExclusiveZone::Fixed(size) => Some(size),
        }
    }
}

/// The exclusive zone handed to the surface: no reserved space is the fixed size 0,
/// the automatic zone is no fixed size, and every fixed size, negative ones included
/// (which ask not to be moved for other surfaces), is passed through unchanged.
pub proof fn lemma_exclusive_zone_passes_sizes_through(n: i32)
    ensures
        spec_exclusive_zone_size(ExclusiveZone::Fixed(n)) == Some(n),
        spec_exclusive_zone_size(ExclusiveZone::NoSpace) == Some(0i32),
        spec_exclusive_zone_size(ExclusiveZone::Auto) is None,
        spec_exclusive_zone_size(ExclusiveZone::Fixed(n)) != spec_exclusive_zone_size(
            ExclusiveZone::Auto,
        ),
{
}

/// Omitted sizes default to 500 by 240 and an omitted visibility to visible; given
/// values are used as they are.
pub proof fn lemma_spec_defaults(spec: LayerShellWindowSpec)
    ensures
        spec.width is None ==> spec.spec_effective_width() == 500,
        spec.height is None ==> spec.spec_effective_height() == 240,
        spec.visible is None ==> spec.spec_effective_visible(),
        spec.width matches Some(w) ==> spec.spec_effective_width() == w,
        spec.height matches Some(h) ==> spec.spec_effective_height() == h,
        spec.visible matches Some(v) ==> spec.spec_effective_visible() == v,
{
}

/// Snapshot entry for one managed layer-shell window.
#[derive(Clone, Debug)]
pub struct LayerShellWindowState {
    /// Identifier used by the layer-shell API path.
    pub id: String,
    /// Configuration currently associated with this window identifier.
    pub spec: LayerShellWindowSpec,
}

impl LayerShellWindowState {
    /// A copy of this entry that equals it.
    pub fn duplicate(&self) -> (copy: Self)
        ensures
            copy == *self,
    {
        LayerShellWindowState { id: self.id.clone(), spec: self.spec.duplicate() }
    }
}

/// A copy of a list of window entries that equals it, element by element.
pub fn duplicate_window_states(states: &Vec<LayerShellWindowState>) -> (copy: Vec<
    LayerShellWindowState,
>)
    ensures
        copy@ == states@,
{
    let mut copy: Vec<LayerShellWindowState> = Vec::new();
    let mut i: usize = 0;
    while i < states.len()
        invariant
            i <= states@.len(),
            copy@ == states@.take(i as int),
        decreases states@.len() - i,
    {
        copy.push(states[i].duplicate());
        proof {
            assert(states@.take(i + 1) =~= states@.take(i as int).push(states@[i as int]));
        }
        i = i + 1;
    }
    proof {
        assert(states@.take(states@.len() as int) =~= states@);
    }
    copy
}

/// Layer-shell window listing response.
#[derive(Clone, Debug)]
pub struct LayerShellWindowsResponse {
    pub layer_shell_windows: Vec<LayerShellWindowState>,
}

/// Current host state.
#[derive(Clone, Debug)]
pub struct AppState {
    /// Layer-shell windows currently managed by the host.
    pub layer_shell_windows: Vec<LayerShellWindowState>,
    /// Most recently observed session-lock state.
    pub session_lock: SessionLockState,
}

impl Default for AppState {
    fn default() -> (state: Self)
        ensures
            state.layer_shell_windows@ == Seq::<LayerShellWindowState>::empty(),
            state.session_lock == SessionLockState::Unlocked,
    {
        AppState { layer_shell_windows: Vec::new(), session_lock: SessionLockState::Unlocked }
    }
}

impl AppState {
    /// This state with the session-lock state replaced and the windows kept.
    pub fn with_session_lock(&self, session_lock: SessionLockState) -> (next: AppState)
        ensures
            next.layer_shell_windows@ == self.layer_shell_windows@,
            next.session_lock == session_lock,
    {
        AppState {
            layer_shell_windows: duplicate_window_states(&self.layer_shell_windows),
            session_lock,
        }
    }

    /// This state with the window list replaced and the session-lock state kept.
    pub fn with_layer_shell_windows(&self, windows: Vec<LayerShellWindowState>) -> (next:
        AppState)
        ensures
            next.layer_shell_windows@ == windows@,
            next.session_lock == self.session_lock,
    {
        AppState { layer_shell_windows: windows, session_lock: self.session_lock }
    }

    /// The listing answered by the layer-shell endpoint: the current windows.
    pub fn layer_shell_listing(&self) -> (response: LayerShellWindowsResponse)
        ensures
            response.layer_shell_windows@ == self.layer_shell_windows@,
    {
        LayerShellWindowsResponse {
            layer_shell_windows: duplicate_window_states(&self.layer_shell_windows),
        }
    }

    /// The status answered by the session-lock endpoint: the current lock state.
    pub fn session_lock_status(&self) -> (status: SessionLockStatus)
        ensures
            status.state == self.session_lock,
    {
        SessionLockStatus { state: self.session_lock }
    }
}

/// URL loaded on every session-lock surface (the serialization of an absolute URL).
#[derive(Clone, Debug)]
pub struct SessionLockRequest {
    /// URL loaded in each compositor-provided lock surface.
    pub url: String,
}

/// Current session-lock lifecycle state.
#[derive(Clone, Copy, Debug, PartialEq, Eq, Structural)]
pub struct SessionLockStatus {
    /// Most recently observed compositor state.
    pub state: SessionLockState,
}

/// A command from the HTTP side to the GTK side. `Done` is the channel on which the
/// GTK side reports that a layer-shell mutation has been processed.
#[derive(Debug)]
pub enum AppCommand<Done> {
    Quit,
    UpsertLayerShellWindow(String, LayerShellWindowSpec, Done),
    CloseLayerShellWindow(String, Done),
    LockSession(SessionLockRequest),
    UnlockSession,
}

impl<Done> AppCommand<Done> {
    /// Whether the GTK side keeps handling commands after this one: every command but
    /// `Quit`.
    pub fn keeps_running(&self) -> (keeps: bool)
        ensures
            keeps == !(self is Quit),
    {
        match self {
            AppCommand::Quit => false,
            _ => true,
        }
    }
}

} // verus!
