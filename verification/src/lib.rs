//! Reading text off the window of a running game: the geometry of screen
//! regions, the bitmap layout of a captured window, and the protocols by
//! which the game is found, its window captured and its text recognized.
//!
//! Nothing in this library talks to the operating system or to the
//! recognition engine. Each protocol names the call to make next and takes
//! what the call answered: [`attach_process`] finds the game,
//! [`capture_screen`] captures its window, [`ocr`] recognizes the text of an
//! image, and [`capture`] leads from the window to the text. What is proved
//! of them holds whatever the system answers.

pub mod bitmap;
pub mod pipeline;
pub mod process;
pub mod recognizer;
pub mod region;
pub mod screen;

pub use bitmap::{combine_bmp, decode_bmp, FileHeader, InfoHeader, Screenshot};
pub use pipeline::{capture, capture_begin};
pub use process::{
    attach_process, attach_process_begin, enum_by_until, get_by_pid, open_process, Process,
};
pub use recognizer::{ocr, ocr_begin};
pub use region::Region;
pub use screen::{capture_screen, capture_screen_begin};
