use frame_pipeline::material::{
    is_tga_file, normal_map_name, normal_placeholder, plan_materials, DiffusePlan, MaterialDecl,
    MaterialError, NormalPlan, PLACEHOLDER_SIZE,
};
use frame_pipeline::texture::{placeholder_pixels, texture_format, PlaceholderSpec, TextureFormat};

fn decl(
    name: &str,
    diffuse_texture: Option<&str>,
    diffuse: Option<[u8; 3]>,
    normal_texture: Option<&str>,
) -> MaterialDecl {
    MaterialDecl {
        name: name.to_string(),
        diffuse_texture: diffuse_texture.map(|s| s.to_string()),
        diffuse,
        normal_texture: normal_texture.map(|s| s.to_string()),
    }
}

#[test]
fn checkerboard_paints_odd_cells() {
    let c = [10u8, 20, 30, 255];
    let bytes = placeholder_pixels(2, 2, true, c);
    let z = [0u8; 4];
    let mut expected = Vec::new();
    for px in [z, c, c, z] {
        expected.extend_from_slice(&px);
    }
    assert_eq!(bytes, expected);
}

#[test]
fn checkerboard_rows_alternate() {
    let c = [1u8, 2, 3, 4];
    let bytes = placeholder_pixels(3, 2, true, c);
    assert_eq!(bytes.len(), 24);
    // (x, y) = (1, 0) and (0, 1), (2, 1) are painted.
    let painted: Vec<bool> = bytes.chunks(4).map(|p| p == c).collect();
    assert_eq!(painted, vec![false, true, false, true, false, true]);
}

#[test]
fn flat_fill_paints_every_pixel() {
    let c = [200u8, 100, 50, 255];
    let bytes = placeholder_pixels(3, 1, false, c);
    assert_eq!(bytes, vec![200, 100, 50, 255, 200, 100, 50, 255, 200, 100, 50, 255]);
}

#[test]
fn zero_sized_placeholder_is_empty() {
    assert!(placeholder_pixels(0, 5, false, [1, 2, 3, 4]).is_empty());
    assert!(placeholder_pixels(7, 0, true, [1, 2, 3, 4]).is_empty());
}

#[test]
fn full_size_placeholder_length() {
    let bytes = placeholder_pixels(128, 128, true, [0, 0, 0, 255]);
    assert_eq!(bytes.len(), 128 * 128 * 4);
    assert_eq!(&bytes[0..8], &[0, 0, 0, 0, 0, 0, 0, 255]);
}

#[test]
fn normal_maps_are_linear_others_srgb() {
    assert_eq!(texture_format(true), TextureFormat::Rgba8Unorm);
    assert_eq!(texture_format(false), TextureFormat::Rgba8UnormSrgb);
}

#[test]
fn normal_name_follows_last_space() {
    assert_eq!(normal_map_name("map_Bump normal.png"), Some("normal.png".to_string()));
    assert_eq!(normal_map_name("-bm 0.5 bump.tga"), Some("bump.tga".to_string()));
    assert_eq!(normal_map_name("trailing "), Some(String::new()));
    assert_eq!(normal_map_name("nospace.png"), None);
    assert_eq!(normal_map_name(""), None);
}

#[test]
fn tga_extension_detected() {
    assert!(is_tga_file("skin.tga"));
    assert!(is_tga_file(".tga"));
    assert!(!is_tga_file("skin.png"));
    assert!(!is_tga_file("tga"));
    assert!(!is_tga_file("skin.TGA"));
}

#[test]
fn empty_material_list_gets_one_placeholder() {
    let plans = plan_materials(&Vec::new()).unwrap();
    assert_eq!(plans.len(), 1);
    assert_eq!(plans[0].name, "Placeholder");
    assert_eq!(
        plans[0].diffuse,
        DiffusePlan::Generate(PlaceholderSpec {
            width: 128,
            height: 128,
            checkerboard: true,
            color: [0, 0, 0, 255],
            format: TextureFormat::Rgba8UnormSrgb,
        })
    );
    assert_eq!(plans[0].normal, NormalPlan::MatchDiffuse);
}

#[test]
fn diffuse_color_becomes_flat_placeholder() {
    let plans = plan_materials(&vec![decl("paint", None, Some([255, 128, 0]), None)]).unwrap();
    let spec = match &plans[0].diffuse {
        DiffusePlan::Generate(s) => *s,
        other => panic!("unexpected plan {:?}", other),
    };
    assert_eq!(spec.color, [255, 128, 0, 255]);
    assert!(!spec.checkerboard);
    assert_eq!((spec.width, spec.height), (PLACEHOLDER_SIZE, PLACEHOLDER_SIZE));
    let bytes = placeholder_pixels(spec.width, spec.height, spec.checkerboard, spec.color);
    assert!(bytes.chunks(4).all(|p| p == [255, 128, 0, 255]));
}

#[test]
fn diffuse_file_wins_over_color() {
    let plans =
        plan_materials(&vec![decl("m", Some("skin.png"), Some([1, 2, 3]), Some("bump n.png"))])
            .unwrap();
    assert_eq!(plans[0].name, "m");
    assert_eq!(plans[0].diffuse, DiffusePlan::Load("skin.png".to_string()));
    assert_eq!(plans[0].normal, NormalPlan::Load("n.png".to_string()));
}

#[test]
fn missing_diffuse_is_checkerboard() {
    let plans = plan_materials(&vec![decl("bare", None, None, None)]).unwrap();
    match &plans[0].diffuse {
        DiffusePlan::Generate(s) => {
            assert!(s.checkerboard);
            assert_eq!(s.color, [0, 0, 0, 255]);
        }
        other => panic!("unexpected plan {:?}", other),
    }
    assert_eq!(plans[0].normal, NormalPlan::MatchDiffuse);
}

#[test]
fn materials_keep_their_order() {
    let plans = plan_materials(&vec![
        decl("a", Some("a.png"), None, None),
        decl("b", None, None, None),
        decl("c", None, Some([9, 9, 9]), None),
    ])
    .unwrap();
    let names: Vec<&str> = plans.iter().map(|p| p.name.as_str()).collect();
    assert_eq!(names, vec!["a", "b", "c"]);
}

#[test]
fn normal_field_without_space_is_rejected() {
    let r = plan_materials(&vec![
        decl("ok", None, None, Some("bump ok.png")),
        decl("bad", None, None, Some("bad.png")),
        decl("worse", None, None, Some("worse.png")),
    ]);
    assert_eq!(r.unwrap_err(), MaterialError::MalformedNormalTexture(1));
}

#[test]
fn normal_placeholder_matches_diffuse_size() {
    for (w, h) in [(128u32, 128u32), (512, 256), (1, 3000)] {
        let n = normal_placeholder(w, h);
        assert_eq!((n.width, n.height), (w, h));
        assert!(!n.checkerboard);
        assert_eq!(n.color, [0, 0, 0, 255]);
        assert_eq!(n.format, TextureFormat::Rgba8Unorm);
    }
}
