//! Window configuration, window errors and the choice of a fullscreen
//! monitor.

use vstd::prelude::*;
use crate::geometry::{Size, ONE};

verus! {

/// Possible errors that can occur from window related actions.
#[derive(Clone, Debug, PartialEq, Eq)]
pub enum WindowError {
    /// `Fullscreen::Monitor` didn't match any monitor name.
    UnknownMonitor,
    /// An internal error of the windowing or graphics layer occurred; the
    /// message says which.
    InternalError(String),
}

impl WindowError {
    /// The message that describes this error.
    pub fn message(&self) -> (s: String)
        ensures
            match self {
                WindowError::UnknownMonitor => s@ == "Unknown monitor"@,
                WindowError::InternalError(m) => s@ == m@,
            },
    {
        match self {
            WindowError::UnknownMonitor => "Unknown monitor".to_string(),
            WindowError::InternalError(m) => m.clone(),
        }
    }
}

/// All the possible fullscreen configurations.
#[derive(Clone, Debug, PartialEq, Eq)]
pub enum Fullscreen {
    /// Fullscreen is disabled.
    Disabled,
    /// Uses the primary monitor for fullscreen.
    Primary,
    /// Uses the monitor that matches the provided name for fullscreen.
    Monitor(String),
}

/// The configuration options when creating a window.
#[derive(Clone, Debug, PartialEq, Eq)]
pub struct Config {
    /// The title of the window.
    pub title: String,
    /// The initial size of the window.
    pub size: Size,
    /// The minimum size of the window.
    pub min_size: Option<Size>,
    /// The maximum size of the window.
    pub max_size: Option<Size>,
    /// Whether or not the window starts maximized.
    pub maximized: bool,
    /// Whether or not the window is resizable.
    pub resizable: bool,
    /// The fullscreen configuration.
    pub fullscreen: Fullscreen,
    /// Whether or not V-sync is enabled.
    pub vsync: bool,
    /// The MSAA amount. Must be a power of two; 0 turns it off.
    pub msaa: u16,
}

impl Default for Config {
    /// An untitled, resizable 640x480 window with v-sync, not fullscreen,
    /// without MSAA.
    fn default() -> (c: Config)
        ensures
            c.title@ == Seq::<char>::empty(),
            c.size.width == 640 * ONE,
            c.size.height == 480 * ONE,
            c.min_size is None,
            c.max_size is None,
            !c.maximized,
            c.resizable,
            c.fullscreen == Fullscreen::Disabled,
            c.vsync,
            c.msaa == 0,
    {
        Config {
            title: String::new(),
            size: Size { width: 640 * ONE, height: 480 * ONE },
            min_size: None,
            max_size: None,
            maximized: false,
            resizable: true,
            fullscreen: Fullscreen::Disabled,
            vsync: true,
            msaa: 0,
        }
    }
}

/// Whether a monitor whose name is `name` (`None` when the platform knows
/// none) is the one called `target`.
pub open spec fn name_matches(name: Option<String>, target: Seq<char>) -> bool {
    match name {
        Some(n) => n@ == target,
        None => false,
    }
}

/// Picks, among monitors with the given names, the one called `target`.
/// When several share that name the last of them is picked; when none has
/// it the result is `UnknownMonitor`.
pub fn select_monitor(names: &Vec<Option<String>>, target: &String) -> (r: Result<usize, WindowError>)
    ensures
        r is Ok <==> exists|j: int| 0 <= j < names@.len() && name_matches(names@[j], target@),
        r is Err ==> r == Err::<usize, WindowError>(WindowError::UnknownMonitor),
        r is Ok ==> {
            let i = r->Ok_0 as int;
            &&& 0 <= i < names@.len()
            &&& name_matches(names@[i], target@)
            &&& forall|j: int| i < j < names@.len() ==> !name_matches(names@[j], target@)
        },
{
    let mut found: Option<usize> = None;
    let mut k: usize = 0;
    while k < names.len()
        invariant
            k <= names@.len(),
            match found {
                Some(i) => {
                    &&& i < k
                    &&& name_matches(names@[i as int], target@)
                    &&& forall|j: int| i < j < k ==> !name_matches(names@[j], target@)
                },
                None => forall|j: int| 0 <= j < k ==> !name_matches(names@[j], target@),
            },
        decreases names@.len() - k,
    {
        let hit = match &names[k] {
            Some(n) => n.eq(target),
            None => false,
        };
        assert(hit == name_matches(names@[k as int], target@));
        if hit {
            found = Some(k);
        }
        k += 1;
    }
    match found {
        Some(i) => Ok(i),
        None => Err(WindowError::UnknownMonitor),
    }
}

/// The size of the window's client area, or 1x1 when the window no longer
/// exists.
pub fn size_or_unit(inner: Option<Size>) -> (s: Size)
    ensures
        s == match inner {
            Some(size) => size,
            None => Size { width: ONE, height: ONE },
        },
{
    match inner {
        Some(size) => size,
        None => Size { width: ONE, height: ONE },
    }
}

} // verus!
