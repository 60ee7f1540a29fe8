//! Keyboard interception for native windows: key translation, modifier
//! reconstruction, repeat tracking and the registry of hooked windows.
pub mod channel;
pub mod keys;
pub mod listener;
pub mod registry;
pub mod repeat;
pub mod translate;

pub use keys::{Event, Key, KeyEvent, Modifiers, RawKeyEventData};
pub use listener::{window_from_hwnd, ListenerError};
pub use raw_window_handle::HandleError;
pub use registry::{
    handle_key_message, AttachError, DetachError, Dispatch, Forward, Hook, HookRegistry, KeyInput,
    Message,
};
pub use repeat::RepeatTracker;
pub use translate::{get_modifiers, translate_key, KeyboardState};
