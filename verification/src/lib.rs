//! Maps raw, device-independent input events (keys, mouse buttons, cursor
//! motion, typed characters, window events) to the actions of an application.
//!
//! Bindings are grouped into contexts that can be switched on and off with a
//! priority. For each raw input the active contexts are asked in the order of
//! their priorities, lowest number first, and the first binding that matches
//! decides: it produces a fire-once action, a state with the time for which it
//! has been held, or a range of motion.
//!
//! Actions and contexts are told apart by numbers. Times are nanoseconds
//! since an epoch that does not matter; positions and distances are
//! fixed-point fractions of the window size, in a unit that whoever hands in
//! the inputs chooses. The engine only compares and subtracts them.
//!
//! Every function states what it returns and changes over a mathematical
//! model of its data; `laws` holds what follows for every binding and input.

pub mod event;
pub mod keycode;
pub mod laws;
pub mod mapping;
pub mod raw;
pub mod remapper;
pub mod source;
pub mod types;
pub mod util;

pub use event::{Argument, ControllerEvent, Event, FocusAction, StateAction, WindowEvent};
pub use raw::{RawInput, RawInputAction, RawInputEvent};
pub use remapper::InputReMapper;
pub use source::WindowInput;
pub use types::{
    ActionArgument, ActionMetadata, Context, MappedType, Mapping, StateInfo, StateStorage,
};
