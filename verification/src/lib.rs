//! Runtime for script-driven desktop sprites: each sprite is a borderless
//! transparent overlay window whose position and displayed frame are chosen
//! each tick by an embedded Lua script.

mod assets;
mod driver;
mod errors;
mod script;
mod sprite;

pub use assets::{ColorLayout, DecodedImage, PixelFormat, PngColor, RawImage};
pub use assets::{build_decoded, decode_image, pixel_format_of};
pub use assets::{
    bytes_per_pixel, decoded_matches, layout_of_color, png_decoding, raw_image_consistent,
    spec_pixel_format, supported_image,
};
pub use driver::{FRAME_PERIOD_NANOS, FrameDriver, FrameError, ScreenBounds, sprite_kept};
pub use errors::SpriteError;
pub use script::{InitReturn, ScriptVal, TickAction, parse_init, parse_tick};
pub use script::{
    init_values_ok, int_of, is_coordinate, is_dimension, is_path_list, items_of,
    lemma_no_texture_rejects_every_tick, lemma_tick_outcome_deterministic, str_of, tick_values_ok,
};
pub use sprite::{Sprite, SpriteBuilder, TextureInfo, file_decodes, spec_texture_info};
