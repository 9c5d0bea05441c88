//! Error kinds that the sprite runtime surfaces, one per failure domain.

use vstd::prelude::*;

verus! {

/// One error kind per failure domain of the runtime.
#[derive(Debug, Clone)]
pub enum SpriteError {
    /// The sprite list or a script source file could not be read.
    Config(String),
    /// An image was missing, corrupt, or of an unsupported color layout.
    AssetDecode(String),
    /// The canvas rejected a texture allocation or update.
    TextureUpload(String),
    /// The script lacks a required callback, or a callback returned
    /// the wrong arity or types.
    ScriptContract(String),
    /// The script raised an error while it ran.
    ScriptRuntime(String),
    /// The windowing layer failed.
    WindowSystem(String),
}

impl SpriteError {
    /// The diagnostic message carried by this error.
    pub open spec fn message_view(&self) -> Seq<char> {
        match self {
            SpriteError::Config(m) => m@,
            SpriteError::AssetDecode(m) => m@,
            SpriteError::TextureUpload(m) => m@,
            SpriteError::ScriptContract(m) => m@,
            SpriteError::ScriptRuntime(m) => m@,
            SpriteError::WindowSystem(m) => m@,
        }
    }

    /// The diagnostic message carried by this error.
    pub fn message(&self) -> (r: String)
        ensures
            r@ == self.message_view(),
    {
        match self {
            SpriteError::Config(m) => m.clone(),
            SpriteError::AssetDecode(m) => m.clone(),
            SpriteError::TextureUpload(m) => m.clone(),
            SpriteError::ScriptContract(m) => m.clone(),
            SpriteError::ScriptRuntime(m) => m.clone(),
            SpriteError::WindowSystem(m) => m.clone(),
        }
    }
}

} // verus!
