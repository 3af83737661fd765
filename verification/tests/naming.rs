use greedy::error::Error;
use greedy::keys::{get_saved_image, Dimension, Format, Height, Saved, Width};

#[test]
fn saved_images_naming() {
    let all_defined = Saved {
        url: "localhost".to_string(),
        dimensions: Dimension(Some(Width(10)), Some(Height(10))),
        format: Some(Format::Avif),
    };

    let no_size = Saved {
        url: "localhost".to_string(),
        dimensions: Dimension(None, None),
        format: Some(Format::Avif),
    };

    let no_format = Saved {
        url: "localhost".to_string(),
        dimensions: Dimension(None, None),
        format: None,
    };

    let no_height = Saved {
        url: "localhost".to_string(),
        dimensions: Dimension(Some(Width(100)), None),
        format: Some(Format::Png),
    };

    let no_width = Saved {
        url: "localhost".to_string(),
        dimensions: Dimension(None, Some(Height(100))),
        format: Some(Format::Webp),
    };

    assert_eq!("localhost_10_10_avif", &all_defined.to_string());
    assert_eq!("localhost_original_original_avif", &no_size.to_string());
    assert_eq!(
        "localhost_original_original_original",
        &no_format.to_string()
    );
    assert_eq!("localhost_100_original_png", &no_height.to_string());
    assert_eq!("localhost_original_100_webp", &no_width.to_string());
}

#[test]
fn key_is_deterministic() {
    let a = get_saved_image(
        "http://localhost/pic.png",
        Some(Width(640)),
        None,
        Some(Format::Webp),
    );
    let b = get_saved_image(
        "http://localhost/pic.png",
        Some(Width(640)),
        None,
        Some(Format::Webp),
    );
    assert_eq!(a.to_string(), b.to_string());
    assert_eq!(a.to_string(), a.to_string());
}

#[test]
fn key_renders_large_numbers() {
    let s = Saved {
        url: "u".to_string(),
        dimensions: Dimension(Some(Width(4294967295)), Some(Height(0))),
        format: None,
    };
    assert_eq!("u_4294967295_0_original", &s.to_string());
}

#[test]
fn format_names_and_content_types() {
    assert_eq!(Format::Avif.name(), "avif");
    assert_eq!(Format::Png.name(), "png");
    assert_eq!(Format::Webp.name(), "webp");
    assert_eq!(Format::Avif.content_type(), "image/avif");
    assert_eq!(Format::Png.content_type(), "image/png");
    assert_eq!(Format::Webp.content_type(), "image/webp");
}

#[test]
fn error_messages() {
    assert_eq!(Error::Download.message(), "Error fetching image");
    assert_eq!(Error::IO.message(), "IO error");
    assert_eq!(Error::Conversion.message(), "Conversion error");
    assert_eq!(
        Error::ResizeEmptyDimension.message(),
        "Missing dimensions to resize"
    );
    assert_eq!(Error::InvalidImageFormat.message(), "Invalid file format");
    assert_eq!(Error::HostNotAllowed.message(), "Host not allowed");
    assert_eq!(Error::Unknown.message(), "Unknown error");
}
