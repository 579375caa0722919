//! Texture formats and their colour-space counterparts.
//!
//! A format is a `wgpu::TextureFormat`, carried through as an opaque value.
//! Which format is the sRGB or the linear counterpart of another is decided by
//! `wgpu` alone; this module gives those two answers a name and states the
//! few facts about them that the rest of the crate relies on.

use vstd::prelude::*;

verus! {

/// `wgpu::TextureFormat`, known to the verifier as an opaque value.
#[verifier::external_type_specification]
#[verifier::external_body]
pub struct ExTextureFormat(wgpu::TextureFormat);

/// The format that `wgpu::TextureFormat::remove_srgb_suffix` returns for `format`.
pub uninterp spec fn linear_form(format: wgpu::TextureFormat) -> wgpu::TextureFormat;

/// The format that `wgpu::TextureFormat::add_srgb_suffix` returns for `format`.
pub uninterp spec fn srgb_form(format: wgpu::TextureFormat) -> wgpu::TextureFormat;

/// `wgpu::TextureFormat::remove_srgb_suffix`: maps each sRGB format to the
/// format without the tag and every other format to itself. The result is
/// named `linear_form`; since no result carries the tag, removing it twice is
/// the same as removing it once.
pub assume_specification[ wgpu::TextureFormat::remove_srgb_suffix ](
    format: &wgpu::TextureFormat,
) -> (r: wgpu::TextureFormat)
    ensures
        r == linear_form(*format),
        linear_form(r) == r,
;

/// `wgpu::TextureFormat::add_srgb_suffix`: maps each format that has an sRGB
/// counterpart to it and every other format to itself. The result is named
/// `srgb_form`; it has the same linear form as the argument, because the two
/// tables in `wgpu` mirror each other.
pub assume_specification[ wgpu::TextureFormat::add_srgb_suffix ](
    format: &wgpu::TextureFormat,
) -> (r: wgpu::TextureFormat)
    ensures
        r == srgb_form(*format),
        linear_form(r) == linear_form(*format),
;

/// `wgpu::TextureFormat::is_srgb`: whether removing the sRGB tag changes the format.
pub assume_specification[ wgpu::TextureFormat::is_srgb ](format: &wgpu::TextureFormat) -> (r: bool)
    ensures
        r == is_srgb_format(*format),
;

/// `Clone::clone` of `wgpu::TextureFormat`, which is a `Copy` type with a
/// derived `Clone`: the clone is the value itself.
pub assume_specification[ <wgpu::TextureFormat as Clone>::clone ](
    format: &wgpu::TextureFormat,
) -> (r: wgpu::TextureFormat)
    ensures
        r == *format,
;

/// `PartialEq::eq` of `wgpu::TextureFormat`, which is derived: whether the
/// two values are the same format.
#[verifier::external_body]
fn same_format(a: &wgpu::TextureFormat, b: &wgpu::TextureFormat) -> (r: bool)
    ensures
        r == (*a == *b),
{
    a == b
}

/// Whether `format` carries the sRGB tag.
pub open spec fn is_srgb_format(format: wgpu::TextureFormat) -> bool {
    format != linear_form(format)
}

/// Whether two formats describe the same storage and differ at most in the
/// colour-space tag.
pub open spec fn same_storage(a: wgpu::TextureFormat, b: wgpu::TextureFormat) -> bool {
    linear_form(a) == linear_form(b)
}

/// Whether `formats` holds `format`.
pub fn has_format(formats: &Vec<wgpu::TextureFormat>, format: wgpu::TextureFormat) -> (r: bool)
    ensures
        r == formats@.contains(format),
{
    let mut i: usize = 0;
    while i < formats.len()
        invariant
            i <= formats.len(),
            forall|j: int| 0 <= j < i ==> formats@[j] != format,
        decreases formats.len() - i,
    {
        if same_format(&formats[i], &format) {
            return true;
        }
        i += 1;
    }
    false
}

/// A list of the same formats in the same order.
pub fn copy_formats(formats: &Vec<wgpu::TextureFormat>) -> (r: Vec<wgpu::TextureFormat>)
    ensures
        r@ == formats@,
{
    let mut copy: Vec<wgpu::TextureFormat> = Vec::new();
    let mut i: usize = 0;
    while i < formats.len()
        invariant
            i <= formats.len(),
            copy@ == formats@.subrange(0, i as int),
        decreases formats.len() - i,
    {
        copy.push(formats[i]);
        assert(copy@ =~= formats@.subrange(0, i + 1));
        i += 1;
    }
    assert(copy@ =~= formats@);
    copy
}

/// Whether two lists hold the same formats in the same order.
pub fn same_formats(a: &Vec<wgpu::TextureFormat>, b: &Vec<wgpu::TextureFormat>) -> (r: bool)
    ensures
        r == (a@ == b@),
{
    if a.len() != b.len() {
        return false;
    }
    let mut i: usize = 0;
    while i < a.len()
        invariant
            a.len() == b.len(),
            i <= a.len(),
            forall|j: int| 0 <= j < i ==> a@[j] == b@[j],
        decreases a.len() - i,
    {
        if !same_format(&a[i], &b[i]) {
            return false;
        }
        i += 1;
    }
    assert(a@ =~= b@);
    true
}

} // verus!
