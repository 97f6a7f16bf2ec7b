use clrays::config::{parse_render_type, Base, RenderType};

fn base(render_type: &str, width: u32, height: u32) -> Base {
    Base {
        title: Some("scene".to_string()),
        gpu: true,
        render_type: render_type.to_string(),
        width,
        height,
        frame_energy: None,
        fisheye: Some(true),
    }
}

#[test]
fn target_names_are_matched_without_case() {
    let p = base("WhItTeD", 640, 480).parse().unwrap();
    assert_eq!(p.render_type, Some(RenderType::Whitted));
    let p = base("GI", 640, 480).parse().unwrap();
    assert_eq!(p.render_type, Some(RenderType::GI));
    let p = base("Test", 640, 480).parse().unwrap();
    assert_eq!(p.render_type, None);
}

#[test]
fn fields_and_defaults_are_applied() {
    let p = base("gi", 640, 480).parse().unwrap();
    assert_eq!(p.title, Some("scene".to_string()));
    assert!(p.gpu);
    assert_eq!((p.w, p.h), (640, 480));
    assert!(!p.frame_energy);
    assert!(p.fisheye);
    let p = base("gi", 0, 0).parse().unwrap();
    assert_eq!((p.w, p.h), (1024, 1024));
    let p = base("gi", 0, 7).parse().unwrap();
    assert_eq!((p.w, p.h), (1024, 7));
}

#[test]
fn unknown_target_is_an_error_that_quotes_it() {
    let e = base("Raster", 1, 1).parse().err().unwrap();
    assert_eq!(e, "Target 'Raster' is not supported!");
    assert!(base("", 1, 1).parse().is_err());
}

#[test]
fn folded_names_select_targets() {
    assert_eq!(parse_render_type(&"gi".to_string()), Some(Some(RenderType::GI)));
    assert_eq!(parse_render_type(&"whitted".to_string()), Some(Some(RenderType::Whitted)));
    assert_eq!(parse_render_type(&"test".to_string()), Some(None));
    assert_eq!(parse_render_type(&"GI".to_string()), None);
    assert_eq!(parse_render_type(&"gi ".to_string()), None);
}
