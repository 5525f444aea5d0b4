//! Key codes and key state of the windowing library the game runs on.

use vstd::prelude::*;

verus! {

/// State reported for a key that is held down.
pub const GLFW_PRESS: i32 = 1;
pub const GLFW_KEY_W: i32 = 87;
pub const GLFW_KEY_A: i32 = 65;
pub const GLFW_KEY_S: i32 = 83;
pub const GLFW_KEY_D: i32 = 68;
pub const GLFW_KEY_UP: i32 = 265;
pub const GLFW_KEY_DOWN: i32 = 264;
pub const GLFW_KEY_LEFT: i32 = 263;
pub const GLFW_KEY_RIGHT: i32 = 262;
pub const GLFW_KEY_ESCAPE: i32 = 256;
pub const GLFW_KEY_SPACE: i32 = 32;
pub const GLFW_KEY_R: i32 = 82;

/// Opaque handle of a window of the windowing library; only ever seen
/// behind a pointer that the library hands out.
pub struct GLFWwindow {
    _private: [u8; 0],
}

} // verus!
