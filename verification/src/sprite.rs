//! The per-sprite actor: its script interpreter, its window size, and the
//! ordered texture list built from the images its `init` callback named.
//!
//! A sprite is built in two phases, because only the caller can touch the
//! filesystem and the windowing layer. [`Sprite::new`] runs the script and
//! validates its `init` return; the caller then reads the named image files
//! and hands their bytes to [`SpriteBuilder::finish`], which decodes them
//! and fixes the texture list. Each frame, [`Sprite::tick`] runs the
//! script's `tick` callback and validates its return into a [`TickAction`]
//! for the caller to render.

use vstd::prelude::*;

use crate::assets::{
    DecodedImage, PixelFormat, decode_image, decoded_matches, pixel_format_of, png_decoding,
    raw_image_consistent, spec_pixel_format, supported_image,
};
use crate::errors::SpriteError;
use crate::script::{
    call_init_raw, call_tick_raw, exec_chunk, model_values, new_interpreter, parse_init,
    parse_tick, TickAction,
};

verus! {

/// The metadata of one canvas texture, in load order.
#[derive(Debug, Clone, Copy, PartialEq, Eq, Structural)]
pub struct TextureInfo {
    pub width: u32,
    pub height: u32,
    pub format: PixelFormat,
}

/// The texture metadata a decoded image is uploaded under.
pub open spec fn spec_texture_info(d: DecodedImage) -> TextureInfo {
    TextureInfo { width: d.width, height: d.height, format: spec_pixel_format(d.layout) }
}

/// A sprite whose script ran and whose `init` return was validated, waiting
/// for the bytes of the image files it named.
pub struct SpriteBuilder {
    /// The sprite's own interpreter; opaque to the host's contracts.
    pub lua: mlua::Lua,
    /// The script path, kept for diagnostics.
    pub path: String,
    /// The window width the script's `init` returned.
    pub width: u32,
    /// The window height the script's `init` returned.
    pub height: u32,
    /// The image paths the script's `init` returned, in order.
    pub image_paths: Vec<String>,
}

/// A fully constructed sprite: interpreter, window size, texture list.
pub struct Sprite {
    /// The sprite's own interpreter; opaque to the host's contracts.
    pub lua: mlua::Lua,
    /// The script path, kept for diagnostics.
    pub path: String,
    /// The window width, fixed when the sprite was built.
    pub width: u32,
    /// The window height, fixed when the sprite was built.
    pub height: u32,
    /// The textures' metadata, indexed in load order.
    pub textures: Vec<TextureInfo>,
    /// How many frames this sprite has completed.
    pub ticks: Ghost<nat>,
}

/// One image file's decode verdict, as the builder's contract states it:
/// bytes were supplied and they decode to a supported, consistent image.
pub open spec fn file_decodes(f: Option<Vec<u8>>) -> bool {
    &&& f matches Some(b)
    &&& png_decoding(b@) matches Some(img)
    &&& supported_image(img)
    &&& raw_image_consistent(img)
}

impl SpriteBuilder {
    /// Decodes the supplied image file contents — `None` stands for a file
    /// that could not be read — and fixes the sprite's texture list, one
    /// texture per image path, in load order.
    ///
    /// Returns the sprite together with the decoded images, index for
    /// index, for the caller to upload. Entries beyond the path list are
    /// ignored; a missing or undecodable entry is an asset decode error.
    pub fn finish(self, files: &Vec<Option<Vec<u8>>>) -> (r: Result<
        (Sprite, Vec<DecodedImage>),
        SpriteError,
    >)
        ensures
            r is Ok <==> (files@.len() >= self.image_paths@.len() && forall|i: int|
                0 <= i < self.image_paths@.len() ==> file_decodes(#[trigger] files@[i])),
            r matches Ok((s, imgs)) ==> {
                &&& s.path@ == self.path@
                &&& s.width == self.width
                &&& s.height == self.height
                &&& s.ticks@ == 0
                &&& s.textures@.len() == self.image_paths@.len()
                &&& imgs@.len() == self.image_paths@.len()
                &&& forall|i: int|
                    0 <= i < imgs@.len() ==> (#[trigger] imgs@[i]).wf() && s.textures@[i]
                        == spec_texture_info(imgs@[i]) && (png_decoding(files@[i]->Some_0@)
                        matches Some(raw) && decoded_matches(imgs@[i], raw))
            },
            r matches Err(e) ==> e matches SpriteError::AssetDecode(_),
    {
        let SpriteBuilder { lua, path, width, height, image_paths } = self;
        let n = image_paths.len();
        if files.len() < n {
            return Err(SpriteError::AssetDecode("an image file was not supplied".to_string()));
        }
        let mut imgs: Vec<DecodedImage> = Vec::new();
        let mut textures: Vec<TextureInfo> = Vec::new();
        let mut i: usize = 0;
        while i < n
            invariant
                i <= n,
                n == image_paths@.len(),
                image_paths@ == self.image_paths@,
                files@.len() >= n,
                imgs@.len() == i,
                textures@.len() == i,
                forall|j: int| 0 <= j < i ==> file_decodes(#[trigger] files@[j]),
                forall|j: int|
                    0 <= j < i ==> (#[trigger] imgs@[j]).wf() && textures@[j] == spec_texture_info(
                        imgs@[j],
                    ) && (png_decoding(files@[j]->Some_0@) matches Some(raw) && decoded_matches(
                        imgs@[j],
                        raw,
                    )),
            decreases n - i,
        {
            let d = match &files[i] {
                None => {
                    return Err(
                        SpriteError::AssetDecode("an image file could not be read".to_string()),
                    );
                },
                Some(bytes) => {
                    match decode_image(bytes) {
                        Ok(d) => d,
                        Err(e) => {
                            return Err(e);
                        },
                    }
                },
            };
            textures.push(
                TextureInfo { width: d.width, height: d.height, format: pixel_format_of(d.layout) },
            );
            imgs.push(d);
            i += 1;
        }
        Ok((Sprite { lua, path, width, height, textures, ticks: Ghost(0) }, imgs))
    }
}

impl Sprite {
    /// Builds the script side of a sprite: a fresh sandboxed interpreter,
    /// the script source run once, and its `init` return validated into the
    /// window size and the ordered image path list.
    ///
    /// The caller reads the files the returned builder names and hands
    /// their bytes to [`SpriteBuilder::finish`]. A script that cannot run
    /// is a runtime error; one whose `init` is missing or returns the wrong
    /// arity or types is a contract error.
    pub fn new(path: String, source: &str) -> (r: Result<SpriteBuilder, SpriteError>)
        ensures
            r matches Ok(b) ==> b.path@ == path@,
            r matches Err(e) ==> (e matches SpriteError::ScriptContract(_) || e
                matches SpriteError::ScriptRuntime(_)),
    {
        let lua = new_interpreter()?;
        exec_chunk(&lua, source)?;
        let raw = call_init_raw(&lua)?;
        let vals = model_values(&raw);
        let init = parse_init(&vals)?;
        Ok(
            SpriteBuilder {
                lua,
                path,
                width: init.width,
                height: init.height,
                image_paths: init.image_paths,
            },
        )
    }

    /// Runs one frame of this sprite: calls the script's `tick` with the
    /// screen dimensions and validates its return into the action the
    /// caller renders.
    ///
    /// The sprite's size and texture list never change; an accepted action
    /// always names a texture the sprite holds. A rejected frame — wrong
    /// arity or types, an out-of-range texture index, a script error —
    /// leaves the sprite as it was and surfaces the error.
    pub fn tick(&mut self, screen_w: u32, screen_h: u32) -> (r: Result<TickAction, SpriteError>)
        ensures
            final(self).path@ == old(self).path@,
            final(self).width == old(self).width,
            final(self).height == old(self).height,
            final(self).textures@ == old(self).textures@,
            r matches Ok(a) ==> a.texture_index < old(self).textures@.len() && final(self).ticks@
                == old(self).ticks@ + 1,
            r matches Err(e) ==> final(self).ticks@ == old(self).ticks@ && (e
                matches SpriteError::ScriptContract(_) || e matches SpriteError::ScriptRuntime(_)),
    {
        let raw = match call_tick_raw(&self.lua, screen_w, screen_h) {
            Ok(raw) => raw,
            Err(e) => {
                return Err(e);
            },
        };
        let vals = model_values(&raw);
        let action = match parse_tick(&vals, self.textures.len()) {
            Ok(a) => a,
            Err(e) => {
                return Err(e);
            },
        };
        self.ticks = Ghost(self.ticks@ + 1);
        Ok(action)
    }

    /// How many textures this sprite holds.
    pub fn texture_count(&self) -> (r: usize)
        ensures
            r == self.textures@.len(),
    {
        self.textures.len()
    }

    /// The metadata of texture `i` in load order, or nothing when `i` is
    /// out of range; a later tick naming such an `i` is rejected as a
    /// contract error.
    pub fn texture_info(&self, i: usize) -> (r: Option<TextureInfo>)
        ensures
            i < self.textures@.len() ==> r == Some(self.textures@[i as int]),
            i >= self.textures@.len() ==> r is None,
    {
        if i < self.textures.len() {
            Some(self.textures[i])
        } else {
            None
        }
    }
}

} // verus!
