use physics::import_freepbr::normal_map_without_ogl;
use physics::import_freepbr::{
    bundle_entry_name, guess_name, material_files, material_key, material_textures, name_from_stem,
    pack_metallic_roughness, select_images, CmdlineArgs, ImageKind, LumaImage,
};

#[test]
fn guess_kind_by_name() {
    assert_eq!(ImageKind::guess_kind("Bricks_Albedo.PNG"), Some(ImageKind::Albedo));
    assert_eq!(ImageKind::guess_kind("bricks_basecolor.png"), Some(ImageKind::Albedo));
    assert_eq!(ImageKind::guess_kind("rock-alb.png"), Some(ImageKind::Albedo));
    assert_eq!(ImageKind::guess_kind("bricks_emissive.png"), Some(ImageKind::Emissive));
    assert_eq!(ImageKind::guess_kind("bricks_normal-ogl.png"), Some(ImageKind::Normal));
    assert_eq!(ImageKind::guess_kind("bricks_nmap.png"), Some(ImageKind::Normal));
    assert_eq!(ImageKind::guess_kind("bricks_roughness.png"), Some(ImageKind::Roughness));
    assert_eq!(ImageKind::guess_kind("bricks_metallic.png"), Some(ImageKind::Metallic));
    assert_eq!(ImageKind::guess_kind("bricks_ao.png"), Some(ImageKind::Ao));
    assert_eq!(ImageKind::guess_kind("bricks_height.png"), None);
    assert_eq!(ImageKind::guess_kind("bricks_albedo.jpg"), None);
    assert_eq!(ImageKind::guess_kind("albedo_preview.png"), None);
}

#[test]
fn guess_kind_order_of_tests() {
    // albedo is tested before the others
    assert_eq!(ImageKind::guess_kind("albedo_normal.png"), Some(ImageKind::Albedo));
    // emissive before normal
    assert_eq!(ImageKind::guess_kind("emissive_normal.png"), Some(ImageKind::Emissive));
    // "rough" before "metal"
    assert_eq!(ImageKind::guess_kind("metal_rough.png"), Some(ImageKind::Roughness));
}

#[test]
fn guess_name_from_path() {
    assert_eq!(guess_name("/tmp/dl/worn-metal-bl.zip"), "worn-metal");
    assert_eq!(guess_name("stone.zip"), "stone");
    assert_eq!(guess_name("dir/x-bl-bl"), "x");
    assert_eq!(guess_name(""), "");
    assert_eq!(name_from_stem("bricks-bl"), "bricks");
    assert_eq!(name_from_stem("bricks"), "bricks");
}

#[test]
fn bundle_names_and_keys() {
    assert_eq!(bundle_entry_name("metals-bl"), Some("metals".to_string()));
    assert_eq!(bundle_entry_name("metals"), None);
    assert_eq!(material_key("metals", "rusted"), "material/metals/rusted");
}

#[test]
fn last_listed_image_wins() {
    let names = vec![
        "a_albedo.png".to_string(),
        "readme.txt".to_string(),
        "b_albedo.png".to_string(),
        "n_normal.png".to_string(),
    ];
    let sel = select_images(&names);
    assert_eq!(sel.albedo, Some(2));
    assert_eq!(sel.normal, Some(3));
    assert_eq!(sel.roughness, None);
    assert_eq!(sel.get(ImageKind::Albedo), Some(2));
    assert_eq!(sel.missing_required(), Some(ImageKind::Roughness));
}

#[test]
fn missing_required_order() {
    let sel = select_images(&vec!["x_roughness.png".to_string()]);
    assert_eq!(sel.missing_required(), Some(ImageKind::Albedo));
    let sel = select_images(&vec!["a_albedo.png".to_string(), "r_rough.png".to_string(), "n_normal.png".to_string()]);
    assert_eq!(sel.missing_required(), None);
}

#[test]
fn material_file_names_and_paths() {
    let files = material_files("rust");
    assert_eq!(files.albedo, "rust_albedo.png");
    assert_eq!(files.normal, "rust_normal.norm");
    assert_eq!(files.ao, "rust_ao.norm");
    assert_eq!(files.metallic_roughness, "rust_mr.norm");
    assert_eq!(files.emissive, "rust_emissive.norm");
    let t = material_textures("rust", &files, false, true);
    assert_eq!(t.base.as_deref(), Some("images/rust/rust_albedo.png"));
    assert_eq!(t.normal_map.as_deref(), Some("images/rust/rust_normal.norm"));
    assert_eq!(t.metallic_roughness_texture.as_deref(), Some("images/rust/rust_mr.norm"));
    assert_eq!(t.occlusion, None);
    assert_eq!(t.emissive.as_deref(), Some("images/rust/rust_emissive.norm"));
}

#[test]
fn metallic_roughness_packing() {
    let r = LumaImage { width: 2, height: 1, pixels: vec![10, 20] };
    let m = LumaImage { width: 3, height: 1, pixels: vec![1, 2, 3] };
    let packed = pack_metallic_roughness(2, 1, &r, &m);
    assert_eq!(packed, vec![0, 10, 1, 0, 20, 2]);
}

#[test]
fn cmdline_args_hold_plain_values() {
    let a = CmdlineArgs {
        input_pbr: "x.zip".to_string(),
        asset_dir: "assets".to_string(),
        name: None,
        existing: false,
        batch: true,
    };
    assert!(a.batch && !a.existing);
    assert_eq!(a.input_pbr, "x.zip");
}

#[test]
fn normal_maps_without_ogl_marker() {
    assert!(normal_map_without_ogl("Bricks_Normal.png"));
    assert!(!normal_map_without_ogl("bricks_normal-OGL.png"));
    assert!(!normal_map_without_ogl("bricks_albedo.png"));
    assert!(!normal_map_without_ogl("bricks_normal.jpg"));
}

#[test]
fn ascii_case_does_not_change_the_role() {
    for name in ["Bricks_Albedo.png", "x_NORMAL-ogl.PNG", "rough.png", "Preview_albedo.png", "readme.txt", "AO.png"] {
        let k = ImageKind::guess_kind(name);
        assert_eq!(k, ImageKind::guess_kind(&name.to_ascii_uppercase()));
        assert_eq!(k, ImageKind::guess_kind(&name.to_ascii_lowercase()));
    }
}
