//! Core of an addressable-LED controller: the pixel store, the update-packet
//! decoder, the gamma/brightness corrector, the procedural animations and the
//! per-tick frame renderer.

pub mod animation;
pub mod color;
pub mod controls;
pub mod correct;
pub mod laws;
pub mod packet;
pub mod render;
pub mod store;

pub use animation::{hue_frame, wheel, Breathing, HueWheel, BREATH_FLOOR, BREATH_PEAK, HUE_CYCLE};
pub use color::OurRGB8;
pub use controls::LedControls;
pub use correct::{correct, correct_frame, gamma_frame};
pub use packet::{decode_packet, PacketError, UpdatePacket, HEADER_LEN, PROTOCOL_VERSION};
pub use render::{next_tick, render_addressable, render_global, Animation, GlobalRenderer};
pub use store::PixelStore;
