//! The core of a Game Boy / Game Boy Color emulator: memory bus and cartridge
//! bank controllers, interrupt controller, timer, pixel pipeline, PPU
//! timeline, joypad, the SM83 interpreter, sound register decoding and the
//! debugger's command language.
pub mod util;
pub mod mem;
pub mod timeline;
pub mod interrupt;
pub mod timer;
pub mod graphics;
pub mod cpu;
pub mod lcd;
pub mod gebemula;
pub mod sound;
pub mod debugger;
pub mod interpreter;
