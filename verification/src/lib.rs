//! Core logic of a minimal video-playback and rendering demo.
//!
//! The library holds the decision-making parts of the player: accelerator and
//! queue-family selection, memory-type selection and upload planning, the
//! aligned staging copy, the one-shot command submission protocol, shader
//! word decoding, the fixed pipeline configuration, the container track scan,
//! and the frame-loop state machine. The surrounding process (window, driver
//! calls, file reading) lives outside the library and hands it plain values.

pub mod container;
pub mod device;
pub mod frame;
pub mod instance;
pub mod memory;
pub mod oneshot;
pub mod pipeline;
pub mod spv;
pub mod staging;
pub mod texture;

pub use device::select_device_queue;
pub use memory::find_memorytype_index;
