//! Where a window was, and how the next run puts its window there.

use crate::platform::{Os, Target};
use vstd::prelude::*;

verus! {

/// The least width and height that are written down.
pub const MIN_PRESERVED_SIZE: u32 = 200;

/// How much of a decorated window's outer height on macOS is its title bar.
pub const MACOS_TITLE_BAR: u32 = 28;

/// The monitor a window is on.
#[derive(Debug, PartialEq, Eq)]
pub struct Monitor {
    /// Its name, where it has one.
    pub name: Option<String>,
}

/// What a window says of its place.
#[derive(Debug, PartialEq, Eq)]
pub struct WindowGeometry {
    /// The monitor the window is on, where that can be told.
    pub monitor: Option<Monitor>,
    /// Where the window's frame is, in physical pixels, where that can be told.
    pub outer_position: Option<(i32, i32)>,
    /// The same in logical pixels.
    pub logical_outer_position: (i32, i32),
    /// The size of the window's content, in physical pixels.
    pub inner_size: (u32, u32),
    /// The size of the window's frame, in logical pixels.
    pub logical_outer_size: (u32, u32),
    /// Whether the window has a title bar.
    pub decorated: bool,
}

/// Where a window was. On macOS this is in logical pixels, elsewhere in physical ones.
#[derive(Debug, PartialEq, Eq)]
pub struct PreservedWindowState {
    pub x: i32,
    pub y: i32,
    pub width: u32,
    pub height: u32,
    pub monitor: String,
}

/// A [`PreservedWindowState`] with its text as a sequence.
#[verifier::ext_equal]
pub struct PreservedWindowStateView {
    pub x: i32,
    pub y: i32,
    pub width: u32,
    pub height: u32,
    pub monitor: Seq<char>,
}

impl View for PreservedWindowState {
    type V = PreservedWindowStateView;

    open spec fn view(&self) -> PreservedWindowStateView {
        PreservedWindowStateView {
            x: self.x,
            y: self.y,
            width: self.width,
            height: self.height,
            monitor: self.monitor@,
        }
    }
}

/// The pixels a place is measured in.
#[derive(Debug, Clone, Copy, PartialEq, Eq, Structural)]
pub enum Unit {
    Logical,
    Physical,
}

/// One step in putting a window where it was.
#[derive(Debug, Clone, Copy, PartialEq, Eq, Structural)]
pub enum Placement {
    /// Move the window's frame.
    OuterPosition { unit: Unit, x: i32, y: i32 },
    /// Give the window's content a size.
    InnerSize { unit: Unit, width: u32, height: u32 },
}

/// The pixels that places are measured in on an operating system.
pub open spec fn unit_on(os: Os) -> Unit {
    if os == Os::MacOs {
        Unit::Logical
    } else {
        Unit::Physical
    }
}

/// Where a window's frame is, in the pixels of the operating system.
pub open spec fn position_on(os: Os, geometry: WindowGeometry) -> (i32, i32) {
    if os == Os::MacOs {
        geometry.logical_outer_position
    } else {
        geometry.outer_position->0
    }
}

/// The size of a window's content, in the pixels of the operating system. On macOS it is told
/// from the frame, without the title bar.
pub open spec fn size_on(os: Os, geometry: WindowGeometry) -> (int, int) {
    if os == Os::MacOs {
        let (width, height) = geometry.logical_outer_size;
        if !geometry.decorated {
            (width as int, height as int)
        } else if height < MACOS_TITLE_BAR {
            (width as int, 0)
        } else {
            (width as int, height - MACOS_TITLE_BAR)
        }
    } else {
        (geometry.inner_size.0 as int, geometry.inner_size.1 as int)
    }
}

/// A width or a height that is written down.
pub open spec fn at_least_min(size: int) -> int {
    if size < MIN_PRESERVED_SIZE {
        MIN_PRESERVED_SIZE as int
    } else {
        size
    }
}

/// What is written down of a window, where it can tell its place and has a monitor with a name.
pub open spec fn preserved(os: Os, geometry: WindowGeometry) -> Option<PreservedWindowStateView> {
    if geometry.monitor is Some && geometry.monitor->0.name is Some && geometry.outer_position
        is Some {
        Some(
            PreservedWindowStateView {
                x: position_on(os, geometry).0,
                y: position_on(os, geometry).1,
                width: at_least_min(size_on(os, geometry).0) as u32,
                height: at_least_min(size_on(os, geometry).1) as u32,
                monitor: geometry.monitor->0.name->0@,
            },
        )
    } else {
        None
    }
}

/// What is written down of a window.
pub fn persist_window_state(os: Os, geometry: &WindowGeometry) -> (state: Option<
    PreservedWindowState,
>)
    ensures
        match state {
            Some(state) => preserved(os, *geometry) == Some(state@),
            None => preserved(os, *geometry) is None,
        },
{
    let monitor = match &geometry.monitor {
        Some(monitor) => monitor,
        None => {
            return None;
        },
    };
    let position: (i32, i32) = match geometry.outer_position {
        Some(position) => position,
        None => {
            return None;
        },
    };
    let (x, y): (i32, i32) = if os == Os::MacOs {
        geometry.logical_outer_position
    } else {
        position
    };
    let (width, height): (u32, u32) = if os == Os::MacOs {
        let adjustment: u32 = if geometry.decorated {
            MACOS_TITLE_BAR
        } else {
            0
        };
        (geometry.logical_outer_size.0, geometry.logical_outer_size.1.saturating_sub(adjustment))
    } else {
        geometry.inner_size
    };
    let name = match &monitor.name {
        Some(name) => name.clone(),
        None => {
            return None;
        },
    };
    Some(
        PreservedWindowState {
            x,
            y,
            width: if width < MIN_PRESERVED_SIZE {
                MIN_PRESERVED_SIZE
            } else {
                width
            },
            height: if height < MIN_PRESERVED_SIZE {
                MIN_PRESERVED_SIZE
            } else {
                height
            },
            monitor: name,
        },
    )
}

/// Whether a build comes back to where its window was: on a desktop, while it is being developed.
pub open spec fn resumes(target: Target) -> bool {
    target.os != Os::Android && target.os != Os::Ios && target.debug_assertions
}

/// The steps that put a window where it was, leaving alone what was asked for explicitly.
pub open spec fn placements(
    target: Target,
    state: Option<PreservedWindowStateView>,
    explicit_inner_size: bool,
    explicit_window_position: bool,
) -> Seq<Placement> {
    match state {
        Some(state) => if resumes(target) {
            let position = Placement::OuterPosition {
                unit: unit_on(target.os),
                x: state.x,
                y: state.y,
            };
            let size = Placement::InnerSize {
                unit: unit_on(target.os),
                width: state.width,
                height: state.height,
            };
            (if explicit_window_position {
                seq![]
            } else {
                seq![position]
            }) + (if explicit_inner_size {
                seq![]
            } else {
                seq![size]
            })
        } else {
            seq![]
        },
        None => seq![],
    }
}

/// Whether what the last run wrote down is to be looked for.
pub fn resumes_from_state(target: Target) -> (resumes: bool)
    ensures
        resumes == self::resumes(target),
{
    target.os != Os::Android && target.os != Os::Ios && target.debug_assertions
}

/// Puts a new window where the last run's was. `state` is what that run wrote down, where it did
/// and where it could be read.
pub fn resume_from_state(
    target: Target,
    state: &Option<PreservedWindowState>,
    explicit_inner_size: bool,
    explicit_window_position: bool,
) -> (steps: Vec<Placement>)
    ensures
        steps@ == placements(
            target,
            match *state {
                Some(state) => Some(state@),
                None => None,
            },
            explicit_inner_size,
            explicit_window_position,
        ),
{
    let mut steps: Vec<Placement> = Vec::new();
    if !resumes_from_state(target) {
        return steps;
    }
    if let Some(state) = state {
        let unit = if target.os == Os::MacOs {
            Unit::Logical
        } else {
            Unit::Physical
        };
        if !explicit_window_position {
            steps.push(Placement::OuterPosition { unit, x: state.x, y: state.y });
        }
        if !explicit_inner_size {
            steps.push(Placement::InnerSize { unit, width: state.width, height: state.height });
        }
    }
    steps
}

/// A window comes back where it was: what one run writes down of a window, the next run of the
/// same build asks for, in the same pixels. Its size comes back too, except that neither side of
/// it comes back smaller than [`MIN_PRESERVED_SIZE`].
pub proof fn window_comes_back(target: Target, geometry: WindowGeometry)
    requires
        resumes(target),
        preserved(target.os, geometry) is Some,
    ensures
        placements(target, preserved(target.os, geometry), false, false) == seq![
            Placement::OuterPosition {
                unit: unit_on(target.os),
                x: position_on(target.os, geometry).0,
                y: position_on(target.os, geometry).1,
            },
            Placement::InnerSize {
                unit: unit_on(target.os),
                width: at_least_min(size_on(target.os, geometry).0) as u32,
                height: at_least_min(size_on(target.os, geometry).1) as u32,
            },
        ],
        size_on(target.os, geometry).0 >= MIN_PRESERVED_SIZE ==> at_least_min(
            size_on(target.os, geometry).0,
        ) == size_on(target.os, geometry).0,
        size_on(target.os, geometry).1 >= MIN_PRESERVED_SIZE ==> at_least_min(
            size_on(target.os, geometry).1,
        ) == size_on(target.os, geometry).1,
{
}

/// What was asked for explicitly is never overridden.
pub proof fn explicit_placement_is_kept(
    target: Target,
    state: Option<PreservedWindowStateView>,
    explicit_inner_size: bool,
    explicit_window_position: bool,
    i: int,
)
    requires
        0 <= i < placements(
            target,
            state,
            explicit_inner_size,
            explicit_window_position,
        ).len(),
    ensures
        placements(target, state, explicit_inner_size, explicit_window_position)[i]
            is OuterPosition ==> !explicit_window_position,
        placements(target, state, explicit_inner_size, explicit_window_position)[i]
            is InnerSize ==> !explicit_inner_size,
{
}

/// The greater of two numbers.
pub open spec fn greater(a: int, b: int) -> int {
    if a < b {
        b
    } else {
        a
    }
}

/// Something is written down of a window exactly where it can tell its place and is on a monitor
/// that has a name. On macOS it is the place of the frame in logical pixels, and the size of the
/// frame without the title bar that a decorated window has; elsewhere it is the place of the frame
/// and the size of the content in physical pixels. No side is written down as less than two hundred.
pub proof fn a_window_is_written_down_as_it_is(os: Os, geometry: WindowGeometry)
    ensures
        preserved(os, geometry) is Some <==> (geometry.monitor matches Some(monitor)
            && monitor.name is Some) && geometry.outer_position is Some,
        preserved(os, geometry) matches Some(state) ==> {
            &&& state.monitor == geometry.monitor->0.name->0@
            &&& os == Os::MacOs ==> {
                let bar: int = if geometry.decorated {
                    28
                } else {
                    0
                };
                &&& state.x == geometry.logical_outer_position.0
                &&& state.y == geometry.logical_outer_position.1
                &&& state.width == greater(200, geometry.logical_outer_size.0 as int)
                &&& state.height == greater(200, geometry.logical_outer_size.1 - bar)
            }
            &&& os != Os::MacOs ==> {
                &&& geometry.outer_position == Some((state.x, state.y))
                &&& state.width == greater(200, geometry.inner_size.0 as int)
                &&& state.height == greater(200, geometry.inner_size.1 as int)
            }
        },
{
}

/// What was written down is gone back to on a desktop and while the application is being developed,
/// and nowhere else. The place and the size are each gone back to unless they were asked for
/// explicitly, the place first, in logical pixels on macOS and in physical ones elsewhere.
pub proof fn a_window_is_put_where_it_was(
    target: Target,
    state: Option<PreservedWindowStateView>,
    explicit_inner_size: bool,
    explicit_window_position: bool,
)
    ensures
        ({
            let steps = placements(target, state, explicit_inner_size, explicit_window_position);
            let comes_back = state is Some && target.debug_assertions && target.os != Os::Android
                && target.os != Os::Ios;
            let unit = if target.os == Os::MacOs {
                Unit::Logical
            } else {
                Unit::Physical
            };
            let placed: int = if comes_back && !explicit_window_position {
                1
            } else {
                0
            };
            let sized: int = if comes_back && !explicit_inner_size {
                1
            } else {
                0
            };
            &&& steps.len() == placed + sized
            &&& placed == 1 ==> steps[0] == (Placement::OuterPosition {
                unit,
                x: state->0.x,
                y: state->0.y,
            })
            &&& sized == 1 ==> steps[placed] == (Placement::InnerSize {
                unit,
                width: state->0.width,
                height: state->0.height,
            })
        }),
{
}

/// What the last run wrote down is looked for only where it is gone back to.
pub proof fn a_build_resumes_on_a_desktop_in_development(target: Target)
    ensures
        resumes(target) <==> target.debug_assertions && (target.os == Os::Linux || target.os
            == Os::MacOs || target.os == Os::Windows || target.os == Os::Other),
{
}

} // verus!
