//! Decisions about native surfaces: which monitor a window goes to and when a
//! window is shown or hidden.

use vstd::prelude::*;

verus! {

/// The monitor with connector `connector` is the one named `name`.
pub open spec fn connector_is(connector: Option<String>, name: Seq<char>) -> bool {
    connector matches Some(c) && c@ == name
}

/// The monitor for a window: the first monitor whose connector is `wanted`; `None`
/// when no monitor is wanted (the compositor chooses) or none has that connector.
pub fn find_monitor(connectors: &Vec<Option<String>>, wanted: Option<&str>) -> (index: Option<
    usize,
>)
    ensures
        wanted is None ==> index is None,
        wanted matches Some(name) ==> match index {
            Some(i) => i < connectors@.len() && connector_is(connectors@[i as int], name@) && (
            forall|j: int| 0 <= j < i ==> !connector_is(#[trigger] connectors@[j], name@)),
            None => forall|j: int|
                0 <= j < connectors@.len() ==> !connector_is(#[trigger] connectors@[j], name@),
        },
{
    let name = match wanted {
        None => {
            return None;
        },
        Some(name) => name.to_owned(),
    };
    let mut i: usize = 0;
    while i < connectors.len()
        invariant
            i <= connectors@.len(),
            wanted is Some,
            name@ == wanted->0@,
            forall|j: int| 0 <= j < i ==> !connector_is(#[trigger] connectors@[j], name@),
        decreases connectors@.len() - i,
    {
        match &connectors[i] {
            Some(connector) => {
                if *connector == name {
                    return Some(i);
                }
            },
            None => {},
        }
        i = i + 1;
    }
    None
}

/// What an updated window's visibility calls for.
#[derive(Clone, Copy, Debug, PartialEq, Eq, Structural)]
pub enum VisibilityChange {
    /// Present the window.
    Present,
    /// Hide the window's surface.
    Hide,
    /// Leave it alone: it is to be hidden and has no surface yet.
    Keep,
}

/// The visibility change for an updated window: present it when it is to be visible,
/// hide it when it is not and has a surface.
pub fn visibility_on_update(visible: bool, has_surface: bool) -> (change: VisibilityChange)
    ensures
        visible ==> change == VisibilityChange::Present,
        !visible && has_surface ==> change == VisibilityChange::Hide,
        !visible && !has_surface ==> change == VisibilityChange::Keep,
{
    if visible {
        VisibilityChange::Present
    } else if has_surface {
        VisibilityChange::Hide
    } else {
        VisibilityChange::Keep
    }
}

/// Whether a new window is presented when its page load event arrives: once loading
/// has finished, while the window is still managed, and if it is to be visible.
pub fn present_on_load(load_finished: bool, still_managed: bool, visible: bool) -> (present:
    bool)
    ensures
        present == (load_finished && still_managed && visible),
{
    load_finished && still_managed && visible
}

/// Why a layer-shell window cannot be created.
#[derive(Clone, Copy, Debug, PartialEq, Eq, Structural)]
pub enum LayerShellUnavailable {
    /// GTK has no default display.
    NoDisplay,
    /// GTK does not run on Wayland, or the compositor lacks wlr-layer-shell.
    Unsupported,
}

impl LayerShellUnavailable {
    /// The error's message.
    pub fn message(&self) -> (text: String)
        ensures
            self == LayerShellUnavailable::NoDisplay ==> text@ == "GTK display unavailable"@,
            self == LayerShellUnavailable::Unsupported ==> text@
                == "layer-shell unavailable: GTK must use Wayland and compositor must support wlr-layer-shell"@,
    {
        match self {
            LayerShellUnavailable::NoDisplay => String::from_str("GTK display unavailable"),
            LayerShellUnavailable::Unsupported => String::from_str(
                "layer-shell unavailable: GTK must use Wayland and compositor must support wlr-layer-shell",
            ),
        }
    }
}

/// Whether layer-shell windows can be created: a display is needed, on the Wayland
/// backend, with a compositor that supports wlr-layer-shell.
pub fn layer_shell_readiness(has_display: bool, is_wayland: bool, protocol_supported: bool) -> (ready:
    Result<(), LayerShellUnavailable>)
    ensures
        !has_display ==> ready == Err::<(), _>(LayerShellUnavailable::NoDisplay),
        has_display && !(is_wayland && protocol_supported) ==> ready == Err::<(), _>(
            LayerShellUnavailable::Unsupported,
        ),
        has_display && is_wayland && protocol_supported ==> ready == Ok::<
            (),
            LayerShellUnavailable,
        >(()),
{
    if !has_display {
        Err(LayerShellUnavailable::NoDisplay)
    } else if !is_wayland || !protocol_supported {
        Err(LayerShellUnavailable::Unsupported)
    } else {
        Ok(())
    }
}

} // verus!
