//! Choosing the pixel format of the presentation surface.
//!
//! A surface offers a list of formats. The context draws in the first one
//! that stores colours in the sRGB transfer function, and in the first one of
//! the list where none does.

use crate::frame::count;
use vstd::prelude::*;

verus! {

/// What a surface can do on an adapter, `wgpu::SurfaceCapabilities`. The
/// library carries the value and looks at the formats it offers only through
/// the two functions below.
#[verifier::external_type_specification]
#[verifier::external_body]
pub struct ExSurfaceCapabilities(wgpu::SurfaceCapabilities);

/// For each format in the field `formats` of `capabilities`, in the order of
/// that field, whether the graphics backend counts it as an sRGB format: the
/// field `srgb` of what `wgpu::TextureFormat::describe` returns for it.
pub uninterp spec fn offered_srgb(capabilities: wgpu::SurfaceCapabilities) -> Seq<bool>;

/// How many formats `capabilities` offers: the length of its field `formats`.
#[verifier::external_body]
fn offered_count(capabilities: &wgpu::SurfaceCapabilities) -> (count: usize)
    ensures
        count == offered_srgb(*capabilities).len(),
{
    capabilities.formats.len()
}

/// Whether the format `capabilities` offers at `position` is an sRGB format,
/// as the graphics backend reports it: the field `srgb` of what
/// `wgpu::TextureFormat::describe` returns for that format.
#[verifier::external_body]
fn offered_is_srgb(capabilities: &wgpu::SurfaceCapabilities, position: usize) -> (answer: bool)
    requires
        position < offered_srgb(*capabilities).len(),
    ensures
        answer == offered_srgb(*capabilities)[position as int],
{
    capabilities.formats[position].describe().srgb
}

/// Whether `choice` is the format to draw in, given which of the offered
/// formats are sRGB formats: the first that is one, or the first of all where
/// none is.
pub open spec fn preferred(srgb: Seq<bool>, choice: int) -> bool {
    &&& 0 <= choice < srgb.len()
    &&& forall|i: int| 0 <= i < choice ==> !srgb[i]
    &&& srgb[choice] || (choice == 0 && forall|i: int| 0 <= i < srgb.len() ==> !srgb[i])
}

/// There is one preferred choice at most.
pub proof fn lemma_preferred_unique(srgb: Seq<bool>, a: int, b: int)
    requires
        preferred(srgb, a),
        preferred(srgb, b),
    ensures
        a == b,
{
}

/// The position of the format to draw in, given for each offered format
/// whether it is an sRGB format. There is none where no format is offered.
pub fn preferred_format(srgb: &[bool]) -> (choice: Option<usize>)
    ensures
        srgb@.len() == 0 <==> choice is None,
        choice matches Some(position) ==> preferred(srgb@, position as int),
{
    if srgb.len() == 0 {
        return None;
    }
    let mut i: usize = 0;
    while i < srgb.len()
        invariant
            i <= srgb@.len(),
            srgb@.len() > 0,
            forall|j: int| 0 <= j < i ==> !srgb@[j],
        decreases srgb@.len() - i,
    {
        if srgb[i] {
            return Some(i);
        }
        i += 1;
    }
    Some(0)
}

/// The position of the format to draw in among the formats `capabilities`
/// offers. There is none where the surface offers no format.
pub fn select_surface_format(capabilities: &wgpu::SurfaceCapabilities) -> (choice: Option<usize>)
    ensures
        offered_srgb(*capabilities).len() == 0 <==> choice is None,
        choice matches Some(position) ==> preferred(offered_srgb(*capabilities), position as int),
{
    let count: usize = offered_count(capabilities);
    let mut srgb: Vec<bool> = Vec::new();
    let mut i: usize = 0;
    while i < count
        invariant
            i <= count,
            count == offered_srgb(*capabilities).len(),
            srgb@ == offered_srgb(*capabilities).take(i as int),
        decreases count - i,
    {
        srgb.push(offered_is_srgb(capabilities, i));
        i += 1;
    }
    assert(srgb@ =~= offered_srgb(*capabilities));
    preferred_format(srgb.as_slice())
}

} // verus!
