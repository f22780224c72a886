use heic_convert::platform::{
    image_encoding, imaging_error_message, orientation_after_read, orientation_queries,
    orientation_transform, sips_arguments, sips_launch_error, sips_outcome, FlipRotate,
    ImageEncoding, MetadataRead,
};

#[test]
fn encoding_by_format() {
    assert_eq!(image_encoding("png"), ImageEncoding::Png);
    assert_eq!(image_encoding("jpeg"), ImageEncoding::Jpeg);
    assert_eq!(image_encoding("anything"), ImageEncoding::Jpeg);
}

#[test]
fn orientation_tags() {
    assert_eq!(orientation_transform(None), None);
    assert_eq!(orientation_transform(Some(0)), None);
    assert_eq!(orientation_transform(Some(1)), None);
    assert_eq!(orientation_transform(Some(2)), Some(FlipRotate::FlipHorizontal));
    assert_eq!(orientation_transform(Some(3)), Some(FlipRotate::Rotate180));
    assert_eq!(orientation_transform(Some(4)), Some(FlipRotate::FlipVertical));
    assert_eq!(orientation_transform(Some(5)), Some(FlipRotate::Rotate90FlipHorizontal));
    assert_eq!(orientation_transform(Some(6)), Some(FlipRotate::Rotate90));
    assert_eq!(orientation_transform(Some(7)), Some(FlipRotate::Rotate270FlipHorizontal));
    assert_eq!(orientation_transform(Some(8)), Some(FlipRotate::Rotate270));
    assert_eq!(orientation_transform(Some(9)), None);
}

#[test]
fn orientation_from_first_readable_query() {
    assert_eq!(orientation_queries(), vec!["/ifd/{ushort=274}", "/app1/ifd/{ushort=274}"]);
    assert_eq!(orientation_after_read(MetadataRead::Unreadable), None);
    assert_eq!(orientation_after_read(MetadataRead::Value(Some(6))), Some(Some(6)));
    assert_eq!(orientation_after_read(MetadataRead::Value(None)), Some(None));
}

#[test]
fn imaging_errors() {
    assert_eq!(
        imaging_error_message(0x88982F50, "The component cannot be found."),
        "No HEIC codec found. Install 'HEIF Image Extensions' and 'HEVC Video Extensions' from the Microsoft Store."
    );
    assert_eq!(
        imaging_error_message(0x80004005, "Unspecified error"),
        "Unspecified error (0x80004005)"
    );
    assert_eq!(imaging_error_message(0x5, "Access"), "Access (0x00000005)");
    assert_eq!(
        imaging_error_message(0x8007000E, "Out of memory"),
        format!("Out of memory (0x{:08X})", 0x8007000Eu32 as i32)
    );
}

#[test]
fn sips_jpeg_and_png_arguments() {
    assert_eq!(
        sips_arguments("/a/in.heic", "/a/in.jpg", "jpeg", 85),
        vec!["-s", "format", "jpeg", "-s", "formatOptions", "85", "/a/in.heic", "--out", "/a/in.jpg"]
    );
    assert_eq!(
        sips_arguments("/a/in.heic", "/a/in.png", "png", 85),
        vec!["-s", "format", "png", "/a/in.heic", "--out", "/a/in.png"]
    );
    assert_eq!(sips_arguments("i", "o", "gif", 0)[2], "jpeg");
    assert_eq!(sips_arguments("i", "o", "jpeg", 100)[5], "100");
}

#[test]
fn sips_outcomes() {
    assert_eq!(sips_outcome(true, b"warning"), Ok(()));
    assert_eq!(sips_outcome(false, b"  Error: bad file \n"), Err("Error: bad file".to_string()));
    assert_eq!(
        sips_outcome(false, b" \n\t"),
        Err("sips failed to convert this file".to_string())
    );
    assert_eq!(
        sips_outcome(false, b""),
        Err("sips failed to convert this file".to_string())
    );
    assert_eq!(sips_outcome(false, b"bad \xff byte"), Err("bad \u{FFFD} byte".to_string()));
    assert_eq!(
        sips_launch_error("No such file or directory (os error 2)"),
        "Failed to run sips: No such file or directory (os error 2)"
    );
}
