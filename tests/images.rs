use image_fns::args::ArgValue;
use image_fns::dimensions::{
    file_extension, format_family, raster_dimensions, svg_dimensions, vector_dimensions, FormatFamily,
    ImageDimensions, SvgSize,
};
use image_fns::error::{ArgKey, ImageFnError};
use image_fns::metadata::{GetImageMetadata, MetadataArgs};
use image_fns::resize::{ResizeArgs, ResizeImage, ResizeRequest, ResizeResponse};
use image_fns::resolve::{candidate_paths, first_existing_index};

const SITE_FILES: [&str; 3] =
    ["content/gutenberg.jpg", "content/gallery/asset.jpg", "static/gutenberg.jpg"];

fn jpeg_380_by_300() -> Vec<u8> {
    let img = image::RgbImage::new(300, 380);
    let mut out = std::io::Cursor::new(Vec::new());
    img.write_to(&mut out, image::ImageFormat::Jpeg).unwrap();
    out.into_inner()
}

fn normalised(path: &str) -> String {
    let mut parts: Vec<&str> = Vec::new();
    for s in path.split('/') {
        match s {
            "" | "." => {}
            ".." => {
                parts.pop();
            }
            _ => parts.push(s),
        }
    }
    parts.join("/")
}

fn existing(candidates: &[String]) -> Vec<bool> {
    candidates.iter().map(|c| SITE_FILES.contains(&normalised(c).as_str())).collect()
}

fn text(s: &str) -> Option<ArgValue> {
    Some(ArgValue::Str(s.to_string()))
}

fn metadata_args(path: &str) -> MetadataArgs {
    MetadataArgs { path: text(path), allow_missing: None }
}

fn get_metadata(
    f: &GetImageMetadata,
    args: MetadataArgs,
) -> Result<Option<ImageDimensions>, ImageFnError> {
    let plan = f.plan(args)?;
    let exists = existing(&plan.candidates);
    match f.locate(&plan, &exists)? {
        None => Ok(None),
        Some(file) => {
            assert_eq!(format_family(&file), FormatFamily::Raster);
            raster_dimensions(&file, &jpeg_380_by_300()).map(Some)
        }
    }
}

fn resize_args(path: &str) -> ResizeArgs {
    ResizeArgs {
        path: text(path),
        width: Some(ArgValue::UInt(40)),
        height: Some(ArgValue::UInt(40)),
        op: None,
        format: None,
        quality: None,
        unknown_keys: vec![],
    }
}

fn resize_request(f: &ResizeImage, args: ResizeArgs) -> Result<ResizeRequest, ImageFnError> {
    let plan = f.plan(args)?;
    let exists = existing(&plan.candidates);
    f.request(plan, &exists)
}

#[test]
fn can_resize_image() {
    let f = ResizeImage::new("/site".to_string());

    // 1. an image in static
    let r = resize_request(&f, resize_args("static/gutenberg.jpg")).unwrap();
    assert_eq!(r.resolved_file, "static/gutenberg.jpg");
    assert_eq!(r.logical_path, "static/gutenberg.jpg");
    assert_eq!(r.width, Some(40));
    assert_eq!(r.height, Some(40));
    assert_eq!(r.op, "fill");
    assert_eq!(r.format, "auto");
    assert_eq!(r.quality, None);

    // 2. an image in content with a relative path
    let r = resize_request(&f, resize_args("content/gutenberg.jpg")).unwrap();
    assert_eq!(r.resolved_file, "content/gutenberg.jpg");

    // 3. an image in content starting with `@/`
    let r = resize_request(&f, resize_args("@/gutenberg.jpg")).unwrap();
    assert_eq!(r.resolved_file, "content/gutenberg.jpg");
    assert_eq!(r.logical_path, "@/gutenberg.jpg");

    // 4. a relative path not starting with static or content
    let r = resize_request(&f, resize_args("gallery/asset.jpg")).unwrap();
    assert_eq!(r.resolved_file, "content/gallery/asset.jpg");

    // 5. an absolute path
    assert!(resize_request(&f, resize_args("/content/gutenberg.jpg")).is_err());
}

#[test]
fn can_get_image_metadata() {
    let f = GetImageMetadata::new("/site".to_string());

    // 1. something in `static` with a relative path
    let d = get_metadata(&f, metadata_args("static/gutenberg.jpg")).unwrap().unwrap();
    assert_eq!(d.height, 380);
    assert_eq!(d.width, 300);

    // 2. something in `static` with an absolute path
    assert!(get_metadata(&f, metadata_args("/static/gutenberg.jpg")).is_err());

    // 3. something in `content` with a relative path
    let d = get_metadata(&f, metadata_args("content/gutenberg.jpg")).unwrap().unwrap();
    assert_eq!(d.height, 380);
    assert_eq!(d.width, 300);

    // 4. something in `content` with a `@/` path
    let d = get_metadata(&f, metadata_args("@/gutenberg.jpg")).unwrap().unwrap();
    assert_eq!(d.height, 380);
    assert_eq!(d.width, 300);
}

#[test]
fn candidates_follow_the_prefix_conventions() {
    assert_eq!(candidate_paths("@/a/b.png").unwrap(), vec!["content/a/b.png".to_string()]);
    assert_eq!(candidate_paths("@//x.png").unwrap(), vec!["content//x.png".to_string()]);
    assert_eq!(candidate_paths("content/x.png").unwrap(), vec!["content/x.png".to_string()]);
    assert_eq!(candidate_paths("static/x.png").unwrap(), vec!["static/x.png".to_string()]);
    assert_eq!(
        candidate_paths("gallery/x.png").unwrap(),
        vec![
            "content/gallery/x.png".to_string(),
            "static/gallery/x.png".to_string(),
            "gallery/x.png".to_string()
        ]
    );
    assert_eq!(
        candidate_paths("contents/x.png").unwrap(),
        vec![
            "content/contents/x.png".to_string(),
            "static/contents/x.png".to_string(),
            "contents/x.png".to_string()
        ]
    );
}

#[test]
fn absolute_paths_are_rejected() {
    assert!(matches!(candidate_paths("/x.png"), Err(ImageFnError::AbsolutePath)));
    assert!(matches!(candidate_paths("/"), Err(ImageFnError::AbsolutePath)));
    let f = GetImageMetadata::new("/site".to_string());
    let args = MetadataArgs {
        path: text("/static/gutenberg.jpg"),
        allow_missing: Some(ArgValue::Bool(true)),
    };
    assert!(matches!(f.plan(args), Err(ImageFnError::AbsolutePath)));
}

#[test]
fn relative_candidates_stay_under_the_site_root() {
    for p in ["a.png", "@/a/b.png", "content/a.png", "static/a.png", "x/y/z.png", ""] {
        for c in candidate_paths(p).unwrap() {
            assert!(!c.starts_with('/'));
            assert!(c.starts_with("content/") || c.starts_with("static/") || c == p);
            assert!(!c.split('/').any(|s| s == ".."));
        }
    }
}

#[test]
fn first_existing_candidate_wins() {
    assert_eq!(first_existing_index(3, &vec![false, true, true]), Some(1));
    assert_eq!(first_existing_index(3, &vec![true, true, true]), Some(0));
    assert_eq!(first_existing_index(3, &vec![false, false, false]), None);
    assert_eq!(first_existing_index(2, &vec![false, false, true]), None);
    assert_eq!(first_existing_index(3, &vec![false]), None);
    assert_eq!(first_existing_index(0, &vec![]), None);
}

#[test]
fn bare_path_prefers_content_over_static() {
    let f = ResizeImage::new("/site".to_string());
    let r = resize_request(&f, resize_args("gutenberg.jpg")).unwrap();
    assert_eq!(r.resolved_file, "content/gutenberg.jpg");
}

#[test]
fn repeated_resize_gives_the_same_request() {
    let f = ResizeImage::new("/site".to_string());
    let mut args = resize_args("gallery/asset.jpg");
    args.quality = Some(ArgValue::UInt(75));
    args.format = text("png");
    let a = resize_request(&f, args.clone()).unwrap();
    let b = resize_request(&f, args).unwrap();
    assert_eq!(a.resolved_file, b.resolved_file);
    assert_eq!(a.logical_path, b.logical_path);
    assert_eq!((a.width, a.height, a.quality), (b.width, b.height, b.quality));
    assert_eq!((a.op, a.format), (b.op, b.format));
}

#[test]
fn quality_bounds() {
    let f = ResizeImage::new("/site".to_string());
    for q in [0u64, 101, 1000] {
        let mut args = resize_args("static/gutenberg.jpg");
        args.quality = Some(ArgValue::UInt(q));
        assert!(matches!(f.plan(args), Err(ImageFnError::InvalidRange(ArgKey::Quality))));
    }
    for q in [1u64, 100] {
        let mut args = resize_args("static/gutenberg.jpg");
        args.quality = Some(ArgValue::UInt(q));
        let r = resize_request(&f, args).unwrap();
        assert_eq!(r.quality, Some(q as u8));
    }
}

#[test]
fn argument_errors_come_before_path_resolution() {
    let f = ResizeImage::new("/site".to_string());
    let mut args = resize_args("/absolute.jpg");
    args.quality = Some(ArgValue::UInt(0));
    assert!(matches!(f.plan(args), Err(ImageFnError::InvalidRange(ArgKey::Quality))));

    let mut args = resize_args("missing.jpg");
    args.path = None;
    assert!(matches!(f.plan(args), Err(ImageFnError::MissingArgument(ArgKey::Path))));

    let mut args = resize_args("a.jpg");
    args.path = Some(ArgValue::UInt(3));
    assert!(matches!(f.plan(args), Err(ImageFnError::InvalidArgumentType(ArgKey::Path))));

    let mut args = resize_args("a.jpg");
    args.width = Some(ArgValue::NegInt(-4));
    assert!(matches!(f.plan(args), Err(ImageFnError::InvalidArgumentType(ArgKey::Width))));

    let mut args = resize_args("a.jpg");
    args.height = Some(ArgValue::UInt(1 << 32));
    assert!(matches!(f.plan(args), Err(ImageFnError::InvalidArgumentType(ArgKey::Height))));

    let mut args = resize_args("a.jpg");
    args.op = Some(ArgValue::Bool(true));
    assert!(matches!(f.plan(args), Err(ImageFnError::InvalidArgumentType(ArgKey::Op))));

    let mut args = resize_args("a.jpg");
    args.format = Some(ArgValue::Other);
    assert!(matches!(f.plan(args), Err(ImageFnError::InvalidArgumentType(ArgKey::Format))));

    let mut args = resize_args("a.jpg");
    args.quality = text("high");
    assert!(matches!(f.plan(args), Err(ImageFnError::InvalidArgumentType(ArgKey::Quality))));
}

#[test]
fn resize_of_a_missing_file_fails() {
    let f = ResizeImage::new("/site".to_string());
    assert!(matches!(
        resize_request(&f, resize_args("missing.jpg")),
        Err(ImageFnError::FileNotFound)
    ));
}

#[test]
fn resize_keeps_given_op_and_format() {
    let f = ResizeImage::new("/site".to_string());
    let mut args = resize_args("@/gutenberg.jpg");
    args.op = text("fit_width");
    args.format = text("webp");
    args.width = None;
    let r = resize_request(&f, args).unwrap();
    assert_eq!(r.op, "fit_width");
    assert_eq!(r.format, "webp");
    assert_eq!(r.width, None);
    assert_eq!(r.height, Some(40));
}

#[test]
fn response_keeps_processor_output() {
    let r = ResizeResponse::from_processor("static/processed_images/a.jpg".to_string(), "u".to_string());
    assert_eq!(r.static_path, "static/processed_images/a.jpg");
    assert_eq!(r.url, "u");
}

#[test]
fn missing_file_with_and_without_allow_missing() {
    let f = GetImageMetadata::new("/site".to_string());
    let args = MetadataArgs { path: text("missing.jpg"), allow_missing: Some(ArgValue::Bool(true)) };
    assert!(matches!(get_metadata(&f, args), Ok(None)));
    assert!(matches!(get_metadata(&f, metadata_args("missing.jpg")), Err(ImageFnError::FileNotFound)));
    let args = MetadataArgs { path: text("missing.jpg"), allow_missing: Some(ArgValue::Bool(false)) };
    assert!(matches!(get_metadata(&f, args), Err(ImageFnError::FileNotFound)));
}

#[test]
fn metadata_argument_errors() {
    let f = GetImageMetadata::new("/site".to_string());
    let args = MetadataArgs { path: None, allow_missing: None };
    assert!(matches!(f.plan(args), Err(ImageFnError::MissingArgument(ArgKey::Path))));
    let args = MetadataArgs { path: text("a.jpg"), allow_missing: text("yes") };
    assert!(matches!(
        f.plan(args),
        Err(ImageFnError::InvalidArgumentType(ArgKey::AllowMissing))
    ));
    assert_eq!(f.base_path(), "/site");
}

#[test]
fn svg_explicit_size() {
    let svg = r#"<svg height="380" width="300" xmlns="http://www.w3.org/2000/svg"></svg>"#;
    assert_eq!(
        vector_dimensions("a.svg", svg).unwrap(),
        ImageDimensions { height: 380, width: 300 }
    );
}

#[test]
fn svg_view_box_size() {
    let svg = r#"<svg viewBox="0 0 300 380" xmlns="http://www.w3.org/2000/svg"></svg>"#;
    assert_eq!(
        vector_dimensions("a.svg", svg).unwrap(),
        ImageDimensions { height: 380, width: 300 }
    );
}

#[test]
fn svg_explicit_size_wins_over_view_box() {
    let svg = r#"<svg height="10" width="20" viewBox="0 0 300 380" xmlns="http://www.w3.org/2000/svg"></svg>"#;
    assert_eq!(vector_dimensions("a.svg", svg).unwrap(), ImageDimensions { height: 10, width: 20 });
}

#[test]
fn svg_without_size_is_invalid() {
    let svg = r#"<svg height="10" xmlns="http://www.w3.org/2000/svg"></svg>"#;
    assert!(matches!(vector_dimensions("a.svg", svg), Err(ImageFnError::InvalidVectorDimensions)));
}

#[test]
fn broken_svg_names_the_file() {
    match vector_dimensions("broken.svg", "<svg") {
        Err(ImageFnError::UnsupportedOrCorruptImage(family, f, cause)) => {
            assert_eq!(family, FormatFamily::Vector);
            assert_eq!(f, "broken.svg");
            assert!(!cause.is_empty());
        }
        other => panic!("unexpected {:?}", other),
    }
}

#[test]
fn svg_dimensions_choose_the_source() {
    let both = SvgSize { height: Some(1), width: Some(2), view_box: None };
    assert_eq!(svg_dimensions(&both).unwrap(), ImageDimensions { height: 1, width: 2 });
    let only_box = SvgSize {
        height: Some(1),
        width: None,
        view_box: Some(ImageDimensions { height: 380, width: 300 }),
    };
    assert_eq!(svg_dimensions(&only_box).unwrap(), ImageDimensions { height: 380, width: 300 });
    let nothing = SvgSize { height: None, width: Some(2), view_box: None };
    assert!(matches!(svg_dimensions(&nothing), Err(ImageFnError::InvalidVectorDimensions)));
}

#[test]
fn raster_decode_failure_names_the_file() {
    match raster_dimensions("static/bad.jpg", b"not an image") {
        Err(ImageFnError::UnsupportedOrCorruptImage(family, f, cause)) => {
            assert_eq!(family, FormatFamily::Raster);
            assert_eq!(f, "static/bad.jpg");
            assert!(!cause.is_empty());
        }
        other => panic!("unexpected {:?}", other),
    }
}

#[test]
fn raster_size_is_height_then_width() {
    let d = raster_dimensions("x.jpg", &jpeg_380_by_300()).unwrap();
    assert_eq!(d, ImageDimensions { height: 380, width: 300 });
}

#[test]
fn format_family_by_extension() {
    assert_eq!(format_family("content/logo.svg"), FormatFamily::Vector);
    assert_eq!(format_family("a..svg"), FormatFamily::Vector);
    assert_eq!(format_family("content/.svg"), FormatFamily::Raster);
    assert_eq!(format_family("content/logo.SVG"), FormatFamily::Raster);
    assert_eq!(format_family("content/logo.svgz"), FormatFamily::Raster);
    assert_eq!(format_family("photo.jpg"), FormatFamily::Raster);
    assert_eq!(format_family("svg"), FormatFamily::Raster);
}

#[test]
fn candidates_climbing_above_the_base_are_never_tried() {
    assert_eq!(
        candidate_paths("../x.jpg").unwrap(),
        vec!["content/../x.jpg".to_string(), "static/../x.jpg".to_string()]
    );
    assert_eq!(candidate_paths("@/../../x.jpg").unwrap(), Vec::<String>::new());
    assert_eq!(candidate_paths("static/../../x.jpg").unwrap(), Vec::<String>::new());
    assert_eq!(candidate_paths("content/../x.jpg").unwrap(), vec!["content/../x.jpg".to_string()]);
    assert_eq!(candidate_paths("a/..").unwrap().len(), 3);
    assert_eq!(candidate_paths("..").unwrap().len(), 2);
    assert_eq!(candidate_paths("..x.jpg").unwrap().len(), 3);
    assert_eq!(candidate_paths("a/.../b").unwrap().len(), 3);
}

#[test]
fn inner_parent_segments_resolve() {
    let f = ResizeImage::new("/site".to_string());
    let r = resize_request(&f, resize_args("gallery/../gutenberg.jpg")).unwrap();
    assert_eq!(r.resolved_file, "content/gallery/../gutenberg.jpg");
}

#[test]
fn climbing_paths_are_not_found() {
    let f = ResizeImage::new("/site".to_string());
    assert!(matches!(
        resize_request(&f, resize_args("gallery/../missing.jpg")),
        Err(ImageFnError::FileNotFound)
    ));
    assert!(matches!(
        resize_request(&f, resize_args("@/../../x.jpg")),
        Err(ImageFnError::FileNotFound)
    ));
    let g = GetImageMetadata::new("/site".to_string());
    let args = MetadataArgs { path: text("../../x.jpg"), allow_missing: Some(ArgValue::Bool(true)) };
    assert!(matches!(get_metadata(&g, args), Ok(None)));
}

#[test]
fn file_extensions() {
    assert_eq!(file_extension("static/a.tga"), "tga");
    assert_eq!(file_extension("a.b/c"), "");
    assert_eq!(file_extension("content/.png"), "");
    assert_eq!(file_extension("x.tar.gz"), "gz");
    assert_eq!(file_extension("x."), "");
    assert_eq!(file_extension("a/.."), "");
    assert_eq!(file_extension("noext"), "");
}

#[test]
fn raster_format_follows_the_extension() {
    let img = image::RgbImage::new(7, 5);
    let mut out = std::io::Cursor::new(Vec::new());
    img.write_to(&mut out, image::ImageFormat::Tga).unwrap();
    let tga = out.into_inner();
    assert_eq!(
        raster_dimensions("static/a.tga", &tga).unwrap(),
        ImageDimensions { height: 5, width: 7 }
    );
    assert!(matches!(
        raster_dimensions("static/a.png", &jpeg_380_by_300()),
        Err(ImageFnError::UnsupportedOrCorruptImage(FormatFamily::Raster, _, _))
    ));
    match raster_dimensions("static/a.xyz", &tga) {
        Err(ImageFnError::UnsupportedOrCorruptImage(FormatFamily::Raster, f, cause)) => {
            assert_eq!(f, "static/a.xyz");
            assert_eq!(cause, "unknown image format");
        }
        other => panic!("unexpected {:?}", other),
    }
}

#[test]
fn unknown_resize_argument_is_refused() {
    let f = ResizeImage::new("/site".to_string());
    let mut args = resize_args("static/gutenberg.jpg");
    args.unknown_keys = vec!["colour".to_string(), "size".to_string()];
    match f.plan(args) {
        Err(ImageFnError::UnknownArgument(k)) => assert_eq!(k, "colour"),
        other => panic!("unexpected {:?}", other),
    }
}

#[test]
fn repeated_decode_failures_agree() {
    let a = raster_dimensions("x.jpg", b"garbage");
    let b = raster_dimensions("x.jpg", b"garbage");
    match (a, b) {
        (
            Err(ImageFnError::UnsupportedOrCorruptImage(_, _, m)),
            Err(ImageFnError::UnsupportedOrCorruptImage(_, _, n)),
        ) => assert_eq!(m, n),
        other => panic!("unexpected {:?}", other),
    }
}
