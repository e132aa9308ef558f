use vstd::prelude::*;

verus! {

/// The six faces of the sky cube.
#[derive(Clone, Copy, Debug, PartialEq, Eq, Structural)]
pub enum SkyFace {
    Top,
    Bottom,
    Left,
    Right,
    Front,
    Back,
}

/// The environment seen where a ray hits nothing: one texture path for each
/// face of a cube around the scene.
pub struct Skybox {
    pub top: String,
    pub bottom: String,
    pub left: String,
    pub right: String,
    pub front: String,
    pub back: String,
}

impl Skybox {
    /// The texture path of `face`.
    pub open spec fn spec_face_path(&self, face: SkyFace) -> Seq<char> {
        match face {
            SkyFace::Top => self.top@,
            SkyFace::Bottom => self.bottom@,
            SkyFace::Left => self.left@,
            SkyFace::Right => self.right@,
            SkyFace::Front => self.front@,
            SkyFace::Back => self.back@,
        }
    }

    pub fn new(top: &str, bottom: &str, left: &str, right: &str, front: &str, back: &str) -> (s:
        Skybox)
        ensures
            s.top@ == top@,
            s.bottom@ == bottom@,
            s.left@ == left@,
            s.right@ == right@,
            s.front@ == front@,
            s.back@ == back@,
    {
        Skybox {
            top: top.to_owned(),
            bottom: bottom.to_owned(),
            left: left.to_owned(),
            right: right.to_owned(),
            front: front.to_owned(),
            back: back.to_owned(),
        }
    }

    /// The block-world sky: its own textures above and below, and one
    /// texture shared by the two X faces and another by the two Z faces.
    pub fn new_simple_minecraft() -> (s: Skybox)
        ensures
            s.top@ == "assets/cielo_top.png"@,
            s.bottom@ == "assets/cielo_bot.png"@,
            s.left@ == "assets/cielo1.png"@,
            s.right@ == "assets/cielo1.png"@,
            s.front@ == "assets/cielo2.png"@,
            s.back@ == "assets/cielo2.png"@,
    {
        Skybox::new(
            "assets/cielo_top.png",
            "assets/cielo_bot.png",
            "assets/cielo1.png",
            "assets/cielo1.png",
            "assets/cielo2.png",
            "assets/cielo2.png",
        )
    }

    /// The texture path of `face`.
    pub fn face_path(&self, face: SkyFace) -> (p: &String)
        ensures
            p@ == self.spec_face_path(face),
    {
        match face {
            SkyFace::Top => &self.top,
            SkyFace::Bottom => &self.bottom,
            SkyFace::Left => &self.left,
            SkyFace::Right => &self.right,
            SkyFace::Front => &self.front,
            SkyFace::Back => &self.back,
        }
    }
}

} // verus!
