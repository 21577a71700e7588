//! The `ash` values that barriers carry through without looking inside them.
use ash::vk;
use vstd::prelude::*;

verus! {

/// `vk::Buffer`, a buffer handle, held opaquely.
#[verifier::external_type_specification]
#[verifier::external_body]
pub struct ExBuffer(vk::Buffer);

/// `vk::Image`, an image handle, held opaquely.
#[verifier::external_type_specification]
#[verifier::external_body]
pub struct ExImage(vk::Image);

/// `vk::ImageSubresourceRange`, held opaquely.
#[verifier::external_type_specification]
#[verifier::external_body]
pub struct ExImageSubresourceRange(vk::ImageSubresourceRange);

/// `vk::Buffer::null`, the null buffer handle. Nothing is claimed of the handle it returns.
pub assume_specification[ash::vk::Buffer::null]() -> vk::Buffer;

/// `vk::Image::null`, the null image handle. Nothing is claimed of the handle it returns.
pub assume_specification[ash::vk::Image::null]() -> vk::Image;

/// The derived `Default` of `vk::ImageSubresourceRange`. Nothing is claimed of the range it
/// returns.
pub assume_specification[<ash::vk::ImageSubresourceRange as Default>::default]() -> vk::ImageSubresourceRange;

/// `Clone` of `vk::Buffer`, which ash derives together with `Copy`: the clone equals the original.
pub assume_specification[<ash::vk::Buffer as Clone>::clone](b: &vk::Buffer) -> (r: vk::Buffer)
    ensures
        r == *b,
;

/// `Clone` of `vk::Image`, which ash derives together with `Copy`: the clone equals the original.
pub assume_specification[<ash::vk::Image as Clone>::clone](i: &vk::Image) -> (r: vk::Image)
    ensures
        r == *i,
;

/// `Clone` of `vk::ImageSubresourceRange`, which ash derives together with `Copy`: the clone
/// equals the original.
pub assume_specification[<ash::vk::ImageSubresourceRange as Clone>::clone](
    r: &vk::ImageSubresourceRange,
) -> (c: vk::ImageSubresourceRange)
    ensures
        c == *r,
;

} // verus!
