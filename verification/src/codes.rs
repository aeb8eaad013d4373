//! The numbers by which the driver knows element types and texture units.

use crate::gl::ElementType;
use vstd::prelude::*;

verus! {

/// The driver's code for single-precision numbers.
pub open spec fn float_code() -> u32 {
    5126
}

/// The driver's code for unsigned 8-bit numbers.
pub open spec fn unsigned_byte_code() -> u32 {
    5121
}

/// The driver's code for unsigned 16-bit numbers.
pub open spec fn unsigned_short_code() -> u32 {
    5123
}

/// The driver's code for unsigned 32-bit numbers.
pub open spec fn unsigned_int_code() -> u32 {
    5125
}

/// The driver's code for texture unit 0. The units follow one by one.
pub open spec fn first_texture_unit_code() -> u32 {
    33984
}

/// The driver's code for an element type.
pub open spec fn data_type_code(element_type: ElementType) -> u32 {
    match element_type {
        ElementType::Float => float_code(),
        ElementType::UnsignedByte => unsigned_byte_code(),
        ElementType::UnsignedShort => unsigned_short_code(),
        ElementType::UnsignedInt => unsigned_int_code(),
    }
}

/// Reads `web_sys::WebGl2RenderingContext::FLOAT`, which web-sys defines
/// as 5126.
#[verifier::external_body]
fn gl_float() -> (code: u32)
    ensures
        code == float_code(),
{
    web_sys::WebGl2RenderingContext::FLOAT
}

/// Reads `web_sys::WebGl2RenderingContext::UNSIGNED_BYTE`, which web-sys
/// defines as 5121.
#[verifier::external_body]
fn gl_unsigned_byte() -> (code: u32)
    ensures
        code == unsigned_byte_code(),
{
    web_sys::WebGl2RenderingContext::UNSIGNED_BYTE
}

/// Reads `web_sys::WebGl2RenderingContext::UNSIGNED_SHORT`, which web-sys
/// defines as 5123.
#[verifier::external_body]
fn gl_unsigned_short() -> (code: u32)
    ensures
        code == unsigned_short_code(),
{
    web_sys::WebGl2RenderingContext::UNSIGNED_SHORT
}

/// Reads `web_sys::WebGl2RenderingContext::UNSIGNED_INT`, which web-sys
/// defines as 5125.
#[verifier::external_body]
fn gl_unsigned_int() -> (code: u32)
    ensures
        code == unsigned_int_code(),
{
    web_sys::WebGl2RenderingContext::UNSIGNED_INT
}

/// Reads `web_sys::WebGl2RenderingContext::TEXTURE0`, which web-sys
/// defines as 33984.
#[verifier::external_body]
fn gl_texture0() -> (code: u32)
    ensures
        code == first_texture_unit_code(),
{
    web_sys::WebGl2RenderingContext::TEXTURE0
}

/// The driver's code for an element type.
pub fn data_type(element_type: ElementType) -> (code: u32)
    ensures
        code == data_type_code(element_type),
{
    match element_type {
        ElementType::Float => gl_float(),
        ElementType::UnsignedByte => gl_unsigned_byte(),
        ElementType::UnsignedShort => gl_unsigned_short(),
        ElementType::UnsignedInt => gl_unsigned_int(),
    }
}

/// The driver's code for texture unit `unit`, if there is such a code in
/// 32 bits.
pub fn texture_unit(unit: u32) -> (code: Option<u32>)
    ensures
        code == if first_texture_unit_code() + unit <= u32::MAX {
            Some((first_texture_unit_code() + unit) as u32)
        } else {
            None
        },
{
    gl_texture0().checked_add(unit)
}

} // verus!
