// The logic of a first-person terrain viewer: movement intents and the exact
// aspect ratio of the camera, a triangle mesh sampled from a heightmap, and
// the per-frame state machine that routes input and decides on render results.

pub mod camera;
pub mod mesh;
pub mod meshgen;
pub mod state;
