//! The request policy: whether a paused network request goes on or is failed.
//!
//! The policy is a pure function of the request's resource type, its URL and
//! the profile's image setting. It needs no live session.

use vstd::prelude::*;
use crate::text::{chars_of, contains, ends_with, has_infix, has_suffix, same_text};

verus! {

/// What a profile does with image requests.
#[derive(Clone, Copy, Debug, PartialEq, Eq, Structural)]
pub enum ImagePolicy {
    /// No image is loaded.
    BlockAll,
    /// Every request goes on.
    AllowAll,
    /// Images are loaded only from CAPTCHA providers.
    AllowCaptchaOnly,
}

/// The verdict on one paused request.
#[derive(Clone, Copy, Debug, PartialEq, Eq, Structural)]
pub enum Decision {
    /// The request goes on unchanged.
    Continue,
    /// The request is failed on the client's behalf.
    Block,
}

/// The resource type that the browser reports for images.
pub open spec fn image_type() -> Seq<char> {
    "Image"@
}

/// The URL is that of a picture, going by its extension.
pub open spec fn has_image_extension(url: Seq<char>) -> bool {
    has_suffix(url, ".jpg"@) || has_suffix(url, ".png"@) || has_suffix(url, ".gif"@)
}

/// The URL names one of the CAPTCHA providers whose images stay allowed.
pub open spec fn names_captcha_provider(url: Seq<char>) -> bool {
    has_infix(url, "recaptcha.net"@) || has_infix(url, "hcaptcha.com"@) || has_infix(
        url,
        "google.com/recaptcha"@,
    )
}

/// The request asks for an image: by its type, or by the URL's extension.
pub open spec fn image_request(resource_type: Seq<char>, url: Seq<char>) -> bool {
    resource_type == image_type() || has_image_extension(url)
}

/// The request is typed as an image and comes from no CAPTCHA provider.
pub open spec fn non_captcha_image(resource_type: Seq<char>, url: Seq<char>) -> bool {
    resource_type == image_type() && !names_captcha_provider(url)
}

/// The verdict that each policy gives.
pub open spec fn verdict(resource_type: Seq<char>, url: Seq<char>, policy: ImagePolicy) -> Decision {
    match policy {
        ImagePolicy::AllowAll => Decision::Continue,
        ImagePolicy::BlockAll => if image_request(resource_type, url) {
            Decision::Block
        } else {
            Decision::Continue
        },
        ImagePolicy::AllowCaptchaOnly => if non_captcha_image(resource_type, url) {
            Decision::Block
        } else {
            Decision::Continue
        },
    }
}

impl ImagePolicy {
    /// The policy that a stored setting stands for: 0 blocks all images,
    /// 2 allows CAPTCHA images only, and every other value allows everything.
    pub open spec fn of_code(code: u8) -> ImagePolicy {
        if code == 0 {
            ImagePolicy::BlockAll
        } else if code == 2 {
            ImagePolicy::AllowCaptchaOnly
        } else {
            ImagePolicy::AllowAll
        }
    }

    /// Reads a stored setting.
    pub fn from_code(code: u8) -> (policy: ImagePolicy)
        ensures
            policy == Self::of_code(code),
    {
        if code == 0 {
            ImagePolicy::BlockAll
        } else if code == 2 {
            ImagePolicy::AllowCaptchaOnly
        } else {
            ImagePolicy::AllowAll
        }
    }

    /// The stored setting of a policy.
    pub fn code(self) -> (code: u8)
        ensures
            Self::of_code(code) == self,
            code == 0 || code == 1 || code == 2,
            self == ImagePolicy::AllowAll <==> code == 1,
    {
        match self {
            ImagePolicy::BlockAll => 0,
            ImagePolicy::AllowAll => 1,
            ImagePolicy::AllowCaptchaOnly => 2,
        }
    }
}

/// Whether a request asks for an image.
pub fn is_image_request(resource_type: &str, url: &str) -> (r: bool)
    ensures
        r == image_request(resource_type@, url@),
{
    let kind = chars_of(resource_type);
    let target = chars_of(url);
    same_text(&kind, &chars_of("Image")) || ends_with(&target, &chars_of(".jpg")) || ends_with(
        &target,
        &chars_of(".png"),
    ) || ends_with(&target, &chars_of(".gif"))
}

/// Whether a request asks for an image that no CAPTCHA provider serves.
pub fn is_non_captcha_image(resource_type: &str, url: &str) -> (r: bool)
    ensures
        r == non_captcha_image(resource_type@, url@),
{
    let kind = chars_of(resource_type);
    if !same_text(&kind, &chars_of("Image")) {
        return false;
    }
    let target = chars_of(url);
    let known = contains(&target, &chars_of("recaptcha.net")) || contains(
        &target,
        &chars_of("hcaptcha.com"),
    ) || contains(&target, &chars_of("google.com/recaptcha"));
    !known
}

/// Decides what becomes of a paused request.
pub fn decide(resource_type: &str, url: &str, policy: ImagePolicy) -> (d: Decision)
    ensures
        d == verdict(resource_type@, url@, policy),
{
    match policy {
        ImagePolicy::AllowAll => Decision::Continue,
        ImagePolicy::BlockAll => if is_image_request(resource_type, url) {
            Decision::Block
        } else {
            Decision::Continue
        },
        ImagePolicy::AllowCaptchaOnly => if is_non_captcha_image(resource_type, url) {
            Decision::Block
        } else {
            Decision::Continue
        },
    }
}

/// Under `AllowAll` every request goes on.
pub proof fn allow_all_continues(resource_type: Seq<char>, url: Seq<char>)
    ensures
        verdict(resource_type, url, ImagePolicy::AllowAll) == Decision::Continue,
{
}

/// Under `BlockAll` every request typed as an image is blocked.
pub proof fn block_all_blocks_image_type(resource_type: Seq<char>, url: Seq<char>)
    requires
        resource_type == "Image"@,
    ensures
        verdict(resource_type, url, ImagePolicy::BlockAll) == Decision::Block,
{
}

/// Under `BlockAll` a URL that ends in `.jpg`, `.png` or `.gif` is blocked,
/// whatever the resource type.
pub proof fn block_all_blocks_image_extension(resource_type: Seq<char>, url: Seq<char>)
    requires
        has_suffix(url, ".jpg"@) || has_suffix(url, ".png"@) || has_suffix(url, ".gif"@),
    ensures
        verdict(resource_type, url, ImagePolicy::BlockAll) == Decision::Block,
{
}

/// Under `AllowCaptchaOnly` a URL that names a CAPTCHA provider goes on,
/// whatever the resource type, and so does every request that is not typed
/// as an image.
pub proof fn captcha_only_spares_captcha_and_other_types(
    resource_type: Seq<char>,
    url: Seq<char>,
)
    requires
        names_captcha_provider(url) || resource_type != "Image"@,
    ensures
        verdict(resource_type, url, ImagePolicy::AllowCaptchaOnly) == Decision::Continue,
{
}

/// A request is blocked only if it asks for an image.
pub proof fn block_needs_image(resource_type: Seq<char>, url: Seq<char>, policy: ImagePolicy)
    requires
        verdict(resource_type, url, policy) == Decision::Block,
    ensures
        image_request(resource_type, url),
        policy != ImagePolicy::AllowAll,
{
}

} // verus!
