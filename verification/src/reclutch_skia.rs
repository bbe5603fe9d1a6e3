//! What the Skia display draws into: an OpenGL framebuffer or texture, and
//! the errors of setting it up.
use vstd::prelude::*;
use crate::text::append_str;

verus! {

/// An existing OpenGL framebuffer.
#[derive(Debug, Clone, Copy)]
pub struct SkiaOpenGlFramebuffer {
    pub size: (i32, i32),
    pub framebuffer_id: u32,
}

/// An existing OpenGL texture.
#[derive(Debug, Clone, Copy)]
pub struct SkiaOpenGlTexture {
    pub size: (i32, i32),
    pub mip_mapped: bool,
    pub texture_id: u32,
}

/// The target a Skia surface draws into.
#[derive(Debug, Clone, Copy)]
pub enum SurfaceType {
    OpenGlFramebuffer(SkiaOpenGlFramebuffer),
    OpenGlTexture(SkiaOpenGlTexture),
}

/// The size of the target a surface draws into.
pub open spec fn spec_surface_size(st: SurfaceType) -> (i32, i32) {
    match st {
        SurfaceType::OpenGlFramebuffer(f) => f.size,
        SurfaceType::OpenGlTexture(t) => t.size,
    }
}

impl SurfaceType {
    /// The size of the target this surface draws into.
    pub fn size(&self) -> (r: (i32, i32))
        ensures
            r == spec_surface_size(*self),
    {
        match self {
            SurfaceType::OpenGlFramebuffer(f) => f.size,
            SurfaceType::OpenGlTexture(t) => t.size,
        }
    }
}

/// An error within Skia and its interactions with OpenGL.
#[derive(Debug, Clone, PartialEq, Eq)]
pub enum SkiaError {
    /// The named OpenGL target cannot be drawn into.
    InvalidTarget(String),
    InvalidContext,
    UnknownError,
}

/// The message of an error.
pub open spec fn spec_skia_error_message(e: SkiaError) -> Seq<char> {
    match e {
        SkiaError::InvalidTarget(t) => "the OpenGL target "@ + t@ + " is invalid"@,
        SkiaError::InvalidContext => "invalid OpenGL context"@,
        SkiaError::UnknownError => "unknown skia error"@,
    }
}

impl SkiaError {
    /// The message of this error.
    pub fn message(&self) -> (r: String)
        ensures
            r@ == spec_skia_error_message(*self),
    {
        let mut r = String::new();
        match self {
            SkiaError::InvalidTarget(t) => {
                append_str(&mut r, "the OpenGL target ");
                append_str(&mut r, t.as_str());
                append_str(&mut r, " is invalid");
            },
            SkiaError::InvalidContext => {
                append_str(&mut r, "invalid OpenGL context");
            },
            SkiaError::UnknownError => {
                append_str(&mut r, "unknown skia error");
            },
        }
        assert(r@ =~= spec_skia_error_message(*self));
        r
    }
}

} // verus!
