use vstd::prelude::*;

use crate::error::RenderError;

verus! {

/// Pixel formats the rasterizer accepts for an image surface. The
/// pipeline always paints into `Argb32` (32-bit ARGB); the other
/// variants exist so the engine's full format enumeration has a name
/// on this side of the boundary.
#[derive(Debug, Clone, Copy, PartialEq, Eq)]
pub enum CairoFormat {
    Invalid,
    Argb32,
    Rgb24,
    A8,
    A1,
    Rgb16_565,
    Rgb30,
}

/// The integer the rasterizer's calling convention uses for each
/// format; `Invalid` is its `-1` sentinel.
pub open spec fn spec_format_code(f: CairoFormat) -> int {
    match f {
        CairoFormat::Invalid => -1,
        CairoFormat::Argb32 => 0,
        CairoFormat::Rgb24 => 1,
        CairoFormat::A8 => 2,
        CairoFormat::A1 => 3,
        CairoFormat::Rgb16_565 => 4,
        CairoFormat::Rgb30 => 5,
    }
}

impl CairoFormat {
    /// The raw value handed to the rasterizer when a surface is created.
    pub fn code(&self) -> (c: i32)
        ensures
            c == spec_format_code(*self),
    {
        match self {
            CairoFormat::Invalid => -1,
            CairoFormat::Argb32 => 0,
            CairoFormat::Rgb24 => 1,
            CairoFormat::A8 => 2,
            CairoFormat::A1 => 3,
            CairoFormat::Rgb16_565 => 4,
            CairoFormat::Rgb30 => 5,
        }
    }
}

/// The rasterizer's status enumeration. Every call into it either
/// succeeds (`CAIRO_STATUS_SUCCESS`) or reports one of these sentinel
/// codes; `CAIRO_STATUS_LAST_STATUS` closes the enumeration and doubles
/// here as the reading of a code outside the known range.
#[derive(Debug, Clone, Copy, PartialEq, Eq)]
#[allow(non_camel_case_types)]
pub enum cairo_status_t {
    CAIRO_STATUS_SUCCESS,
    CAIRO_STATUS_NO_MEMORY,
    CAIRO_STATUS_INVALID_RESTORE,
    CAIRO_STATUS_INVALID_POP_GROUP,
    CAIRO_STATUS_NO_CURRENT_POINT,
    CAIRO_STATUS_INVALID_MATRIX,
    CAIRO_STATUS_INVALID_STATUS,
    CAIRO_STATUS_NULL_POINTER,
    CAIRO_STATUS_INVALID_STRING,
    CAIRO_STATUS_INVALID_PATH_DATA,
    CAIRO_STATUS_READ_ERROR,
    CAIRO_STATUS_WRITE_ERROR,
    CAIRO_STATUS_SURFACE_FINISHED,
    CAIRO_STATUS_SURFACE_TYPE_MISMATCH,
    CAIRO_STATUS_PATTERN_TYPE_MISMATCH,
    CAIRO_STATUS_INVALID_CONTENT,
    CAIRO_STATUS_INVALID_FORMAT,
    CAIRO_STATUS_INVALID_VISUAL,
    CAIRO_STATUS_FILE_NOT_FOUND,
    CAIRO_STATUS_INVALID_DASH,
    CAIRO_STATUS_INVALID_DSC_COMMENT,
    CAIRO_STATUS_INVALID_INDEX,
    CAIRO_STATUS_CLIP_NOT_REPRESENTABLE,
    CAIRO_STATUS_TEMP_FILE_ERROR,
    CAIRO_STATUS_INVALID_STRIDE,
    CAIRO_STATUS_FONT_TYPE_MISMATCH,
    CAIRO_STATUS_USER_FONT_IMMUTABLE,
    CAIRO_STATUS_USER_FONT_ERROR,
    CAIRO_STATUS_NEGATIVE_COUNT,
    CAIRO_STATUS_INVALID_CLUSTERS,
    CAIRO_STATUS_INVALID_SLANT,
    CAIRO_STATUS_INVALID_WEIGHT,
    CAIRO_STATUS_INVALID_SIZE,
    CAIRO_STATUS_USER_FONT_NOT_IMPLEMENTED,
    CAIRO_STATUS_DEVICE_TYPE_MISMATCH,
    CAIRO_STATUS_DEVICE_ERROR,
    CAIRO_STATUS_INVALID_MESH_CONSTRUCTION,
    CAIRO_STATUS_DEVICE_FINISHED,
    CAIRO_STATUS_JBIG2_GLOBAL_MISSING,
    CAIRO_STATUS_PNG_ERROR,
    CAIRO_STATUS_FREETYPE_ERROR,
    CAIRO_STATUS_WIN32_GDI_ERROR,
    CAIRO_STATUS_TAG_ERROR,
    CAIRO_STATUS_LAST_STATUS,
}

/// The integer each status variant stands for in the rasterizer's
/// calling convention (`CAIRO_STATUS_SUCCESS` is `0`, the rest count up
/// in declaration order).
pub open spec fn spec_status_code(s: cairo_status_t) -> int {
    match s {
        cairo_status_t::CAIRO_STATUS_SUCCESS => 0,
        cairo_status_t::CAIRO_STATUS_NO_MEMORY => 1,
        cairo_status_t::CAIRO_STATUS_INVALID_RESTORE => 2,
        cairo_status_t::CAIRO_STATUS_INVALID_POP_GROUP => 3,
        cairo_status_t::CAIRO_STATUS_NO_CURRENT_POINT => 4,
        cairo_status_t::CAIRO_STATUS_INVALID_MATRIX => 5,
        cairo_status_t::CAIRO_STATUS_INVALID_STATUS => 6,
        cairo_status_t::CAIRO_STATUS_NULL_POINTER => 7,
        cairo_status_t::CAIRO_STATUS_INVALID_STRING => 8,
        cairo_status_t::CAIRO_STATUS_INVALID_PATH_DATA => 9,
        cairo_status_t::CAIRO_STATUS_READ_ERROR => 10,
        cairo_status_t::CAIRO_STATUS_WRITE_ERROR => 11,
        cairo_status_t::CAIRO_STATUS_SURFACE_FINISHED => 12,
        cairo_status_t::CAIRO_STATUS_SURFACE_TYPE_MISMATCH => 13,
        cairo_status_t::CAIRO_STATUS_PATTERN_TYPE_MISMATCH => 14,
        cairo_status_t::CAIRO_STATUS_INVALID_CONTENT => 15,
        cairo_status_t::CAIRO_STATUS_INVALID_FORMAT => 16,
        cairo_status_t::CAIRO_STATUS_INVALID_VISUAL => 17,
        cairo_status_t::CAIRO_STATUS_FILE_NOT_FOUND => 18,
        cairo_status_t::CAIRO_STATUS_INVALID_DASH => 19,
        cairo_status_t::CAIRO_STATUS_INVALID_DSC_COMMENT => 20,
        cairo_status_t::CAIRO_STATUS_INVALID_INDEX => 21,
        cairo_status_t::CAIRO_STATUS_CLIP_NOT_REPRESENTABLE => 22,
        cairo_status_t::CAIRO_STATUS_TEMP_FILE_ERROR => 23,
        cairo_status_t::CAIRO_STATUS_INVALID_STRIDE => 24,
        cairo_status_t::CAIRO_STATUS_FONT_TYPE_MISMATCH => 25,
        cairo_status_t::CAIRO_STATUS_USER_FONT_IMMUTABLE => 26,
        cairo_status_t::CAIRO_STATUS_USER_FONT_ERROR => 27,
        cairo_status_t::CAIRO_STATUS_NEGATIVE_COUNT => 28,
        cairo_status_t::CAIRO_STATUS_INVALID_CLUSTERS => 29,
        cairo_status_t::CAIRO_STATUS_INVALID_SLANT => 30,
        cairo_status_t::CAIRO_STATUS_INVALID_WEIGHT => 31,
        cairo_status_t::CAIRO_STATUS_INVALID_SIZE => 32,
        cairo_status_t::CAIRO_STATUS_USER_FONT_NOT_IMPLEMENTED => 33,
        cairo_status_t::CAIRO_STATUS_DEVICE_TYPE_MISMATCH => 34,
        cairo_status_t::CAIRO_STATUS_DEVICE_ERROR => 35,
        cairo_status_t::CAIRO_STATUS_INVALID_MESH_CONSTRUCTION => 36,
        cairo_status_t::CAIRO_STATUS_DEVICE_FINISHED => 37,
        cairo_status_t::CAIRO_STATUS_JBIG2_GLOBAL_MISSING => 38,
        cairo_status_t::CAIRO_STATUS_PNG_ERROR => 39,
        cairo_status_t::CAIRO_STATUS_FREETYPE_ERROR => 40,
        cairo_status_t::CAIRO_STATUS_WIN32_GDI_ERROR => 41,
        cairo_status_t::CAIRO_STATUS_TAG_ERROR => 42,
        cairo_status_t::CAIRO_STATUS_LAST_STATUS => 43,
    }
}

/// The status a raw code from the rasterizer is read as: the matching
/// variant for a code in the known range, `CAIRO_STATUS_LAST_STATUS`
/// for anything outside it.
pub open spec fn spec_status_of_code(code: int) -> cairo_status_t {
    if code == 0 {
        cairo_status_t::CAIRO_STATUS_SUCCESS
    } else if code == 1 {
        cairo_status_t::CAIRO_STATUS_NO_MEMORY
    } else if code == 2 {
        cairo_status_t::CAIRO_STATUS_INVALID_RESTORE
    } else if code == 3 {
        cairo_status_t::CAIRO_STATUS_INVALID_POP_GROUP
    } else if code == 4 {
        cairo_status_t::CAIRO_STATUS_NO_CURRENT_POINT
    } else if code == 5 {
        cairo_status_t::CAIRO_STATUS_INVALID_MATRIX
    } else if code == 6 {
        cairo_status_t::CAIRO_STATUS_INVALID_STATUS
    } else if code == 7 {
        cairo_status_t::CAIRO_STATUS_NULL_POINTER
    } else if code == 8 {
        cairo_status_t::CAIRO_STATUS_INVALID_STRING
    } else if code == 9 {
        cairo_status_t::CAIRO_STATUS_INVALID_PATH_DATA
    } else if code == 10 {
        cairo_status_t::CAIRO_STATUS_READ_ERROR
    } else if code == 11 {
        cairo_status_t::CAIRO_STATUS_WRITE_ERROR
    } else if code == 12 {
        cairo_status_t::CAIRO_STATUS_SURFACE_FINISHED
    } else if code == 13 {
        cairo_status_t::CAIRO_STATUS_SURFACE_TYPE_MISMATCH
    } else if code == 14 {
        cairo_status_t::CAIRO_STATUS_PATTERN_TYPE_MISMATCH
    } else if code == 15 {
        cairo_status_t::CAIRO_STATUS_INVALID_CONTENT
    } else if code == 16 {
        cairo_status_t::CAIRO_STATUS_INVALID_FORMAT
    } else if code == 17 {
        cairo_status_t::CAIRO_STATUS_INVALID_VISUAL
    } else if code == 18 {
        cairo_status_t::CAIRO_STATUS_FILE_NOT_FOUND
    } else if code == 19 {
        cairo_status_t::CAIRO_STATUS_INVALID_DASH
    } else if code == 20 {
        cairo_status_t::CAIRO_STATUS_INVALID_DSC_COMMENT
    } else if code == 21 {
        cairo_status_t::CAIRO_STATUS_INVALID_INDEX
    } else if code == 22 {
        cairo_status_t::CAIRO_STATUS_CLIP_NOT_REPRESENTABLE
    } else if code == 23 {
        cairo_status_t::CAIRO_STATUS_TEMP_FILE_ERROR
    } else if code == 24 {
        cairo_status_t::CAIRO_STATUS_INVALID_STRIDE
    } else if code == 25 {
        cairo_status_t::CAIRO_STATUS_FONT_TYPE_MISMATCH
    } else if code == 26 {
        cairo_status_t::CAIRO_STATUS_USER_FONT_IMMUTABLE
    } else if code == 27 {
        cairo_status_t::CAIRO_STATUS_USER_FONT_ERROR
    } else if code == 28 {
        cairo_status_t::CAIRO_STATUS_NEGATIVE_COUNT
    } else if code == 29 {
        cairo_status_t::CAIRO_STATUS_INVALID_CLUSTERS
    } else if code == 30 {
        cairo_status_t::CAIRO_STATUS_INVALID_SLANT
    } else if code == 31 {
        cairo_status_t::CAIRO_STATUS_INVALID_WEIGHT
    } else if code == 32 {
        cairo_status_t::CAIRO_STATUS_INVALID_SIZE
    } else if code == 33 {
        cairo_status_t::CAIRO_STATUS_USER_FONT_NOT_IMPLEMENTED
    } else if code == 34 {
        cairo_status_t::CAIRO_STATUS_DEVICE_TYPE_MISMATCH
    } else if code == 35 {
        cairo_status_t::CAIRO_STATUS_DEVICE_ERROR
    } else if code == 36 {
        cairo_status_t::CAIRO_STATUS_INVALID_MESH_CONSTRUCTION
    } else if code == 37 {
        cairo_status_t::CAIRO_STATUS_DEVICE_FINISHED
    } else if code == 38 {
        cairo_status_t::CAIRO_STATUS_JBIG2_GLOBAL_MISSING
    } else if code == 39 {
        cairo_status_t::CAIRO_STATUS_PNG_ERROR
    } else if code == 40 {
        cairo_status_t::CAIRO_STATUS_FREETYPE_ERROR
    } else if code == 41 {
        cairo_status_t::CAIRO_STATUS_WIN32_GDI_ERROR
    } else if code == 42 {
        cairo_status_t::CAIRO_STATUS_TAG_ERROR
    } else {
        cairo_status_t::CAIRO_STATUS_LAST_STATUS
    }
}

/// A call into the rasterizer succeeded exactly when it reported the
/// single success sentinel.
pub open spec fn status_ok(s: cairo_status_t) -> bool {
    s == cairo_status_t::CAIRO_STATUS_SUCCESS
}

impl cairo_status_t {
    /// Reads the raw status integer a native call returned. Codes the
    /// enumeration does not name are read as `CAIRO_STATUS_LAST_STATUS`,
    /// so an unmapped code is still a definite (non-success) status.
    pub fn from_code(code: i32) -> (s: cairo_status_t)
        ensures
            s == spec_status_of_code(code as int),
    {
        if code == 0 {
            cairo_status_t::CAIRO_STATUS_SUCCESS
        } else if code == 1 {
            cairo_status_t::CAIRO_STATUS_NO_MEMORY
        } else if code == 2 {
            cairo_status_t::CAIRO_STATUS_INVALID_RESTORE
        } else if code == 3 {
            cairo_status_t::CAIRO_STATUS_INVALID_POP_GROUP
        } else if code == 4 {
            cairo_status_t::CAIRO_STATUS_NO_CURRENT_POINT
        } else if code == 5 {
            cairo_status_t::CAIRO_STATUS_INVALID_MATRIX
        } else if code == 6 {
            cairo_status_t::CAIRO_STATUS_INVALID_STATUS
        } else if code == 7 {
            cairo_status_t::CAIRO_STATUS_NULL_POINTER
        } else if code == 8 {
            cairo_status_t::CAIRO_STATUS_INVALID_STRING
        } else if code == 9 {
            cairo_status_t::CAIRO_STATUS_INVALID_PATH_DATA
        } else if code == 10 {
            cairo_status_t::CAIRO_STATUS_READ_ERROR
        } else if code == 11 {
            cairo_status_t::CAIRO_STATUS_WRITE_ERROR
        } else if code == 12 {
            cairo_status_t::CAIRO_STATUS_SURFACE_FINISHED
        } else if code == 13 {
            cairo_status_t::CAIRO_STATUS_SURFACE_TYPE_MISMATCH
        } else if code == 14 {
            cairo_status_t::CAIRO_STATUS_PATTERN_TYPE_MISMATCH
        } else if code == 15 {
            cairo_status_t::CAIRO_STATUS_INVALID_CONTENT
        } else if code == 16 {
            cairo_status_t::CAIRO_STATUS_INVALID_FORMAT
        } else if code == 17 {
            cairo_status_t::CAIRO_STATUS_INVALID_VISUAL
        } else if code == 18 {
            cairo_status_t::CAIRO_STATUS_FILE_NOT_FOUND
        } else if code == 19 {
            cairo_status_t::CAIRO_STATUS_INVALID_DASH
        } else if code == 20 {
            cairo_status_t::CAIRO_STATUS_INVALID_DSC_COMMENT
        } else if code == 21 {
            cairo_status_t::CAIRO_STATUS_INVALID_INDEX
        } else if code == 22 {
            cairo_status_t::CAIRO_STATUS_CLIP_NOT_REPRESENTABLE
        } else if code == 23 {
            cairo_status_t::CAIRO_STATUS_TEMP_FILE_ERROR
        } else if code == 24 {
            cairo_status_t::CAIRO_STATUS_INVALID_STRIDE
        } else if code == 25 {
            cairo_status_t::CAIRO_STATUS_FONT_TYPE_MISMATCH
        } else if code == 26 {
            cairo_status_t::CAIRO_STATUS_USER_FONT_IMMUTABLE
        } else if code == 27 {
            cairo_status_t::CAIRO_STATUS_USER_FONT_ERROR
        } else if code == 28 {
            cairo_status_t::CAIRO_STATUS_NEGATIVE_COUNT
        } else if code == 29 {
            cairo_status_t::CAIRO_STATUS_INVALID_CLUSTERS
        } else if code == 30 {
            cairo_status_t::CAIRO_STATUS_INVALID_SLANT
        } else if code == 31 {
            cairo_status_t::CAIRO_STATUS_INVALID_WEIGHT
        } else if code == 32 {
            cairo_status_t::CAIRO_STATUS_INVALID_SIZE
        } else if code == 33 {
            cairo_status_t::CAIRO_STATUS_USER_FONT_NOT_IMPLEMENTED
        } else if code == 34 {
            cairo_status_t::CAIRO_STATUS_DEVICE_TYPE_MISMATCH
        } else if code == 35 {
            cairo_status_t::CAIRO_STATUS_DEVICE_ERROR
        } else if code == 36 {
            cairo_status_t::CAIRO_STATUS_INVALID_MESH_CONSTRUCTION
        } else if code == 37 {
            cairo_status_t::CAIRO_STATUS_DEVICE_FINISHED
        } else if code == 38 {
            cairo_status_t::CAIRO_STATUS_JBIG2_GLOBAL_MISSING
        } else if code == 39 {
            cairo_status_t::CAIRO_STATUS_PNG_ERROR
        } else if code == 40 {
            cairo_status_t::CAIRO_STATUS_FREETYPE_ERROR
        } else if code == 41 {
            cairo_status_t::CAIRO_STATUS_WIN32_GDI_ERROR
        } else if code == 42 {
            cairo_status_t::CAIRO_STATUS_TAG_ERROR
        } else {
            cairo_status_t::CAIRO_STATUS_LAST_STATUS
        }
    }

    /// The raw integer this status stands for, as the rasterizer's
    /// calling convention counts them.
    pub fn code(&self) -> (c: i32)
        ensures
            c == spec_status_code(*self),
    {
        match self {
            cairo_status_t::CAIRO_STATUS_SUCCESS => 0,
            cairo_status_t::CAIRO_STATUS_NO_MEMORY => 1,
            cairo_status_t::CAIRO_STATUS_INVALID_RESTORE => 2,
            cairo_status_t::CAIRO_STATUS_INVALID_POP_GROUP => 3,
            cairo_status_t::CAIRO_STATUS_NO_CURRENT_POINT => 4,
            cairo_status_t::CAIRO_STATUS_INVALID_MATRIX => 5,
            cairo_status_t::CAIRO_STATUS_INVALID_STATUS => 6,
            cairo_status_t::CAIRO_STATUS_NULL_POINTER => 7,
            cairo_status_t::CAIRO_STATUS_INVALID_STRING => 8,
            cairo_status_t::CAIRO_STATUS_INVALID_PATH_DATA => 9,
            cairo_status_t::CAIRO_STATUS_READ_ERROR => 10,
            cairo_status_t::CAIRO_STATUS_WRITE_ERROR => 11,
            cairo_status_t::CAIRO_STATUS_SURFACE_FINISHED => 12,
            cairo_status_t::CAIRO_STATUS_SURFACE_TYPE_MISMATCH => 13,
            cairo_status_t::CAIRO_STATUS_PATTERN_TYPE_MISMATCH => 14,
            cairo_status_t::CAIRO_STATUS_INVALID_CONTENT => 15,
            cairo_status_t::CAIRO_STATUS_INVALID_FORMAT => 16,
            cairo_status_t::CAIRO_STATUS_INVALID_VISUAL => 17,
            cairo_status_t::CAIRO_STATUS_FILE_NOT_FOUND => 18,
            cairo_status_t::CAIRO_STATUS_INVALID_DASH => 19,
            cairo_status_t::CAIRO_STATUS_INVALID_DSC_COMMENT => 20,
            cairo_status_t::CAIRO_STATUS_INVALID_INDEX => 21,
            cairo_status_t::CAIRO_STATUS_CLIP_NOT_REPRESENTABLE => 22,
            cairo_status_t::CAIRO_STATUS_TEMP_FILE_ERROR => 23,
            cairo_status_t::CAIRO_STATUS_INVALID_STRIDE => 24,
            cairo_status_t::CAIRO_STATUS_FONT_TYPE_MISMATCH => 25,
            cairo_status_t::CAIRO_STATUS_USER_FONT_IMMUTABLE => 26,
            cairo_status_t::CAIRO_STATUS_USER_FONT_ERROR => 27,
            cairo_status_t::CAIRO_STATUS_NEGATIVE_COUNT => 28,
            cairo_status_t::CAIRO_STATUS_INVALID_CLUSTERS => 29,
            cairo_status_t::CAIRO_STATUS_INVALID_SLANT => 30,
            cairo_status_t::CAIRO_STATUS_INVALID_WEIGHT => 31,
            cairo_status_t::CAIRO_STATUS_INVALID_SIZE => 32,
            cairo_status_t::CAIRO_STATUS_USER_FONT_NOT_IMPLEMENTED => 33,
            cairo_status_t::CAIRO_STATUS_DEVICE_TYPE_MISMATCH => 34,
            cairo_status_t::CAIRO_STATUS_DEVICE_ERROR => 35,
            cairo_status_t::CAIRO_STATUS_INVALID_MESH_CONSTRUCTION => 36,
            cairo_status_t::CAIRO_STATUS_DEVICE_FINISHED => 37,
            cairo_status_t::CAIRO_STATUS_JBIG2_GLOBAL_MISSING => 38,
            cairo_status_t::CAIRO_STATUS_PNG_ERROR => 39,
            cairo_status_t::CAIRO_STATUS_FREETYPE_ERROR => 40,
            cairo_status_t::CAIRO_STATUS_WIN32_GDI_ERROR => 41,
            cairo_status_t::CAIRO_STATUS_TAG_ERROR => 42,
            cairo_status_t::CAIRO_STATUS_LAST_STATUS => 43,
        }
    }

    /// Whether this status is the success sentinel.
    pub fn is_success(&self) -> (b: bool)
        ensures
            b == status_ok(*self),
    {
        match self {
            cairo_status_t::CAIRO_STATUS_SUCCESS => true,
            _ => false,
        }
    }
}

/// Reads the document engine's open signal: a possibly-null document
/// return beside an out-parameter error object.
///
/// The error object is consulted first: when the engine populated one,
/// its message decides the outcome even if a document was also
/// returned. A null document with no error object is its own distinct
/// failure, recorded as `OpenFailed(None)`.
pub fn open_outcome(document_created: bool, error_message: Option<String>) -> (r: Result<
    (),
    RenderError,
>)
    ensures
        error_message matches Some(m) ==> r == Err::<(), RenderError>(
            RenderError::OpenFailed(Some(m)),
        ),
        error_message is None && !document_created ==> r == Err::<(), RenderError>(
            RenderError::OpenFailed(None),
        ),
        error_message is None && document_created ==> r == Ok::<(), RenderError>(()),
{
    match error_message {
        Some(m) => Err(RenderError::OpenFailed(Some(m))),
        None => {
            if document_created {
                Ok(())
            } else {
                Err(RenderError::OpenFailed(None))
            }
        },
    }
}

/// Reads the rasterizer's surface-creation signal: a possibly-null
/// surface return plus the surface's own status query. Either a null
/// surface or a non-success status is a creation failure.
pub fn surface_outcome(surface_created: bool, status: cairo_status_t) -> (r: Result<
    (),
    RenderError,
>)
    ensures
        r == (if surface_created && status_ok(status) {
            Ok::<(), RenderError>(())
        } else {
            Err::<(), RenderError>(RenderError::SurfaceCreationFailed)
        }),
{
    if surface_created && status.is_success() {
        Ok(())
    } else {
        Err(RenderError::SurfaceCreationFailed)
    }
}

/// Reads the paint context's status query made right after the context
/// was created from a surface.
pub fn context_outcome(status: cairo_status_t) -> (r: Result<(), RenderError>)
    ensures
        r == (if status_ok(status) {
            Ok::<(), RenderError>(())
        } else {
            Err::<(), RenderError>(RenderError::ContextCreationFailed)
        }),
{
    if status.is_success() {
        Ok(())
    } else {
        Err(RenderError::ContextCreationFailed)
    }
}

/// Reads the encoder's finishing status. On failure the side helper's
/// translation of the sentinel is carried along; the translation may
/// itself be absent (an unmapped code), and that absence is kept rather
/// than invented.
pub fn encode_outcome(status: cairo_status_t, status_message: Option<String>) -> (r: Result<
    (),
    RenderError,
>)
    ensures
        status_ok(status) ==> r == Ok::<(), RenderError>(()),
        !status_ok(status) ==> r == Err::<(), RenderError>(
            RenderError::EncodeFailed(status_message),
        ),
{
    if status.is_success() {
        Ok(())
    } else {
        Err(RenderError::EncodeFailed(status_message))
    }
}

} // verus!
