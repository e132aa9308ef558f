use diorama::material::{CubeFace, TextureFaces};
use diorama::skybox::{SkyFace, Skybox};

#[test]
fn skybox_new_keeps_each_face() {
    let s = Skybox::new("t", "b", "l", "r", "f", "k");
    assert_eq!(s.face_path(SkyFace::Top), "t");
    assert_eq!(s.face_path(SkyFace::Bottom), "b");
    assert_eq!(s.face_path(SkyFace::Left), "l");
    assert_eq!(s.face_path(SkyFace::Right), "r");
    assert_eq!(s.face_path(SkyFace::Front), "f");
    assert_eq!(s.face_path(SkyFace::Back), "k");
}

#[test]
fn minecraft_sky_textures() {
    let s = Skybox::new_simple_minecraft();
    assert_eq!(s.top, "assets/cielo_top.png");
    assert_eq!(s.bottom, "assets/cielo_bot.png");
    assert_eq!(s.left, "assets/cielo1.png");
    assert_eq!(s.right, "assets/cielo1.png");
    assert_eq!(s.front, "assets/cielo2.png");
    assert_eq!(s.back, "assets/cielo2.png");
}

#[test]
fn texture_faces_pick_by_face() {
    let faces = TextureFaces {
        top: "assets/furnace_top.png".to_string(),
        bottom: "assets/furnace_front_off.png".to_string(),
        side_x: "assets/pumpkin_side.png".to_string(),
        side_z: "assets/pumpkin_face_off.png".to_string(),
    };
    assert_eq!(faces.path_for(CubeFace::Top), "assets/furnace_top.png");
    assert_eq!(faces.path_for(CubeFace::Bottom), "assets/furnace_front_off.png");
    assert_eq!(faces.path_for(CubeFace::SideX), "assets/pumpkin_side.png");
    assert_eq!(faces.path_for(CubeFace::SideZ), "assets/pumpkin_face_off.png");
}
