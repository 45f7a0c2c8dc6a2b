use rusty_pixel::geometry::Aspect;
use rusty_pixel::image_modifier::resize::ResizeModifier;
use rusty_pixel::image_modifier::scale::ScaleModifier;
use rusty_pixel::image_modifier::Modifier;
use rusty_pixel::scale_image::parse_options;

#[test]
fn parse_full_option_string() {
    let mods = parse_options("bw-olandscape-s400x400-m20");
    assert_eq!(mods.len(), 3);
    assert!(matches!(mods[0], Modifier::BlackAndWhite(_)));
    match &mods[1] {
        Modifier::Orientation(o) => assert!(!o.portrait),
        other => panic!("expected an orientation step, got {:?}", other),
    }
    match &mods[2] {
        Modifier::Scale(s) => {
            assert_eq!(s.aspect, Aspect { num: 400, den: 400 });
            assert_eq!(s.margin_percentage, 20);
            assert_eq!(s.size, None);
            assert!(s.crop);
        }
        other => panic!("expected a scale step, got {:?}", other),
    }
}

#[test]
fn parse_is_deterministic() {
    let a = parse_options("bw-olandscape-s400x400-m20");
    let b = parse_options("bw-olandscape-s400x400-m20");
    assert_eq!(a, b);
    assert!(!a.is_empty());
}

#[test]
fn scale_without_margin_token_has_margin_zero() {
    let mods = parse_options("s400x400");
    assert_eq!(mods.len(), 1);
    match &mods[0] {
        Modifier::Scale(s) => assert_eq!(s.margin_percentage, 0),
        other => panic!("expected a scale step, got {:?}", other),
    }
}

#[test]
fn margin_binds_regardless_of_token_order() {
    for options in ["s400x400-m20", "m20-s400x400"] {
        let mods = parse_options(options);
        let scale: Vec<&ScaleModifier> = mods
            .iter()
            .filter_map(|m| match m {
                Modifier::Scale(s) => Some(s),
                _ => None,
            })
            .collect();
        assert_eq!(scale.len(), 1, "for {}", options);
        assert_eq!(scale[0].margin_percentage, 20, "for {}", options);
    }
}

#[test]
fn first_margin_token_wins() {
    let mods = parse_options("m10-s400x400-m20");
    match &mods[0] {
        Modifier::Scale(s) => assert_eq!(s.margin_percentage, 10),
        other => panic!("expected a scale step, got {:?}", other),
    }
}

#[test]
fn scale_aspect_is_longer_over_shorter() {
    let mods = parse_options("s800x400");
    match &mods[0] {
        Modifier::Scale(s) => assert_eq!(s.aspect, Aspect { num: 800, den: 400 }),
        other => panic!("expected a scale step, got {:?}", other),
    }
    let mods = parse_options("s400x800");
    match &mods[0] {
        Modifier::Scale(s) => assert_eq!(s.aspect, Aspect { num: 800, den: 400 }),
        other => panic!("expected a scale step, got {:?}", other),
    }
}

#[test]
fn resize_tokens_parse() {
    let mods = parse_options("rh200");
    assert_eq!(mods.len(), 1);
    match &mods[0] {
        Modifier::Resize(r) => {
            assert_eq!(*r, ResizeModifier { height: true, pixels: 200 });
        }
        other => panic!("expected a resize step, got {:?}", other),
    }
    let mods = parse_options("rw200");
    match &mods[0] {
        Modifier::Resize(r) => {
            assert_eq!(*r, ResizeModifier { height: false, pixels: 200 });
        }
        other => panic!("expected a resize step, got {:?}", other),
    }
}

#[test]
fn orientation_tokens_parse() {
    let mods = parse_options("oportrait");
    match &mods[0] {
        Modifier::Orientation(o) => assert!(o.portrait),
        other => panic!("expected an orientation step, got {:?}", other),
    }
}

#[test]
fn trim_token_parses() {
    let mods = parse_options("tr");
    match &mods[0] {
        Modifier::Trim(t) => assert_eq!(t.background, (255, 255, 255)),
        other => panic!("expected a trim step, got {:?}", other),
    }
}

#[test]
fn unrecognized_tokens_are_dropped() {
    assert_eq!(parse_options("zzz").len(), 0);
    assert_eq!(parse_options("").len(), 0);
    let mods = parse_options("zzz-bw-qqq");
    assert_eq!(mods.len(), 1);
    assert!(matches!(mods[0], Modifier::BlackAndWhite(_)));
}

#[test]
fn out_of_range_numbers_are_dropped() {
    assert_eq!(parse_options("rw99999999999").len(), 0);
    assert_eq!(parse_options("s99999999999x100").len(), 0);
    assert_eq!(parse_options("rw2147483647").len(), 1);
}

#[test]
fn malformed_scale_tokens_are_dropped() {
    assert_eq!(parse_options("s400").len(), 0);
    assert_eq!(parse_options("sx400").len(), 0);
    assert_eq!(parse_options("s400x").len(), 0);
    assert_eq!(parse_options("s400x400x400").len(), 0);
}

#[test]
fn duplicate_category_tokens_each_produce_a_step() {
    let mods = parse_options("bw-bw");
    assert_eq!(mods.len(), 2);
    assert!(matches!(mods[0], Modifier::BlackAndWhite(_)));
    assert!(matches!(mods[1], Modifier::BlackAndWhite(_)));
}

#[test]
fn bare_margin_token_contributes_nothing() {
    assert_eq!(parse_options("m").len(), 0);
    let mods = parse_options("s1x1-m");
    assert_eq!(mods.len(), 1);
    match &mods[0] {
        Modifier::Scale(s) => assert_eq!(s.margin_percentage, 0),
        other => panic!("expected a scale step, got {:?}", other),
    }
}

#[test]
fn smallest_scale_token_parses() {
    let mods = parse_options("s1x1");
    match &mods[0] {
        Modifier::Scale(s) => assert_eq!(s.aspect, Aspect { num: 1, den: 1 }),
        other => panic!("expected a scale step, got {:?}", other),
    }
}
