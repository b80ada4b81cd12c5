use discord_avatar_api::format::UserAvatarFormats;

#[test]
fn parses_the_canonical_names() {
    assert_eq!(UserAvatarFormats::from_str("png"), Ok(UserAvatarFormats::Png));
    assert_eq!(UserAvatarFormats::from_str("jpg"), Ok(UserAvatarFormats::Jpg));
    assert_eq!(UserAvatarFormats::from_str("webp"), Ok(UserAvatarFormats::Webp));
    assert_eq!(UserAvatarFormats::from_str("gif"), Ok(UserAvatarFormats::Gif));
}

#[test]
fn parses_jpeg_as_jpg() {
    assert_eq!(UserAvatarFormats::from_str("jpeg"), Ok(UserAvatarFormats::Jpg));
    assert_eq!(UserAvatarFormats::from_str("jpeg").unwrap().as_str(), "jpg");
}

#[test]
fn rejects_other_names() {
    assert_eq!(UserAvatarFormats::from_str(""), Err(()));
    assert_eq!(UserAvatarFormats::from_str("PNG"), Err(()));
    assert_eq!(UserAvatarFormats::from_str("Png"), Err(()));
    assert_eq!(UserAvatarFormats::from_str(".png"), Err(()));
    assert_eq!(UserAvatarFormats::from_str("png "), Err(()));
    assert_eq!(UserAvatarFormats::from_str("jpe"), Err(()));
    assert_eq!(UserAvatarFormats::from_str("jpegs"), Err(()));
    assert_eq!(UserAvatarFormats::from_str("bmp"), Err(()));
    assert_eq!(UserAvatarFormats::from_str("apng"), Err(()));
    assert_eq!(UserAvatarFormats::from_str("gíf"), Err(()));
}

#[test]
fn names_of_the_formats() {
    assert_eq!(UserAvatarFormats::Png.as_str(), "png");
    assert_eq!(UserAvatarFormats::Jpg.as_str(), "jpg");
    assert_eq!(UserAvatarFormats::Webp.as_str(), "webp");
    assert_eq!(UserAvatarFormats::Gif.as_str(), "gif");
}

#[test]
fn to_string_gives_the_name() {
    assert_eq!(UserAvatarFormats::Png.to_string(), "png");
    assert_eq!(UserAvatarFormats::Jpg.to_string(), "jpg");
    assert_eq!(UserAvatarFormats::Webp.to_string(), "webp");
    assert_eq!(UserAvatarFormats::Gif.to_string(), "gif");
}

#[test]
fn a_name_parses_back_to_its_format() {
    let all = [
        UserAvatarFormats::Png,
        UserAvatarFormats::Jpg,
        UserAvatarFormats::Webp,
        UserAvatarFormats::Gif,
    ];
    for format in all {
        assert_eq!(UserAvatarFormats::from_str(format.as_str()), Ok(format));
    }
}
