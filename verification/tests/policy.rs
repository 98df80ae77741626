use potabrowser::policy::{decide, is_image_request, is_non_captcha_image, Decision, ImagePolicy};

#[test]
fn allow_all_lets_images_through() {
    assert_eq!(decide("Image", "https://example.com/a.png", ImagePolicy::AllowAll), Decision::Continue);
    assert_eq!(decide("Document", "https://example.com/", ImagePolicy::AllowAll), Decision::Continue);
    assert_eq!(decide("", "", ImagePolicy::AllowAll), Decision::Continue);
}

#[test]
fn block_all_blocks_by_resource_type() {
    assert_eq!(decide("Image", "https://example.com/picture", ImagePolicy::BlockAll), Decision::Block);
    assert_eq!(decide("Image", "", ImagePolicy::BlockAll), Decision::Block);
}

#[test]
fn block_all_blocks_by_extension() {
    assert_eq!(decide("Document", "https://example.com/a.jpg", ImagePolicy::BlockAll), Decision::Block);
    assert_eq!(decide("Other", "https://example.com/a.png", ImagePolicy::BlockAll), Decision::Block);
    assert_eq!(decide("", "x.gif", ImagePolicy::BlockAll), Decision::Block);
    assert_eq!(decide("Script", ".gif", ImagePolicy::BlockAll), Decision::Block);
}

#[test]
fn block_all_lets_other_requests_through() {
    assert_eq!(decide("Document", "https://example.com/", ImagePolicy::BlockAll), Decision::Continue);
    assert_eq!(decide("Script", "https://example.com/a.jpg?x=1", ImagePolicy::BlockAll), Decision::Continue);
    assert_eq!(decide("image", "https://example.com/a.jpeg", ImagePolicy::BlockAll), Decision::Continue);
    assert_eq!(decide("Script", "gif", ImagePolicy::BlockAll), Decision::Continue);
}

#[test]
fn captcha_only_spares_recaptcha() {
    let url = "https://www.google.com/recaptcha/api2/payload?p=1";
    assert_eq!(decide("Image", url, ImagePolicy::AllowCaptchaOnly), Decision::Continue);
    assert_eq!(decide("Document", url, ImagePolicy::AllowCaptchaOnly), Decision::Continue);
}

#[test]
fn captcha_only_spares_every_provider() {
    assert_eq!(decide("Image", "https://recaptcha.net/x.png", ImagePolicy::AllowCaptchaOnly), Decision::Continue);
    assert_eq!(decide("Image", "https://imgs.hcaptcha.com/y", ImagePolicy::AllowCaptchaOnly), Decision::Continue);
}

#[test]
fn captcha_only_blocks_other_images_only() {
    assert_eq!(decide("Image", "https://example.com/a.png", ImagePolicy::AllowCaptchaOnly), Decision::Block);
    assert_eq!(decide("Image", "https://google.com/recaptch", ImagePolicy::AllowCaptchaOnly), Decision::Block);
    assert_eq!(decide("Document", "https://example.com/a.png", ImagePolicy::AllowCaptchaOnly), Decision::Continue);
    assert_eq!(decide("Stylesheet", "https://example.com/a.css", ImagePolicy::AllowCaptchaOnly), Decision::Continue);
}

#[test]
fn unknown_resource_types_are_no_images() {
    assert_eq!(decide("SomethingNew", "https://example.com/x", ImagePolicy::BlockAll), Decision::Continue);
    assert_eq!(decide("SomethingNew", "https://example.com/x", ImagePolicy::AllowCaptchaOnly), Decision::Continue);
}

#[test]
fn image_requests_are_recognised() {
    assert!(is_image_request("Image", "https://example.com/"));
    assert!(is_image_request("XHR", "https://example.com/photo.jpg"));
    assert!(!is_image_request("XHR", "https://example.com/photo.jpg#top"));
    assert!(!is_image_request("", ""));
    assert!(is_non_captcha_image("Image", "https://example.com/photo.jpg"));
    assert!(!is_non_captcha_image("Image", "https://hcaptcha.com/photo.jpg"));
    assert!(!is_non_captcha_image("Font", "https://example.com/photo.jpg"));
}

#[test]
fn policy_codes_round_trip() {
    assert_eq!(ImagePolicy::from_code(0), ImagePolicy::BlockAll);
    assert_eq!(ImagePolicy::from_code(1), ImagePolicy::AllowAll);
    assert_eq!(ImagePolicy::from_code(2), ImagePolicy::AllowCaptchaOnly);
    assert_eq!(ImagePolicy::from_code(7), ImagePolicy::AllowAll);
    assert_eq!(ImagePolicy::BlockAll.code(), 0);
    assert_eq!(ImagePolicy::AllowAll.code(), 1);
    assert_eq!(ImagePolicy::AllowCaptchaOnly.code(), 2);
}
