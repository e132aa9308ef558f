use vstd::prelude::*;

verus! {

/// The faces of a block that can carry different textures: the two X sides
/// share one, as do the two Z sides.
#[derive(Clone, Copy, Debug, PartialEq, Eq, Structural)]
pub enum CubeFace {
    Top,
    Bottom,
    SideX,
    SideZ,
}

/// The texture paths of a textured block material.
#[derive(Clone, Debug)]
pub struct TextureFaces {
    pub top: String,
    pub bottom: String,
    pub side_x: String,
    pub side_z: String,
}

impl TextureFaces {
    /// The texture path of `face`.
    pub open spec fn spec_path_for(&self, face: CubeFace) -> Seq<char> {
        match face {
            CubeFace::Top => self.top@,
            CubeFace::Bottom => self.bottom@,
            CubeFace::SideX => self.side_x@,
            CubeFace::SideZ => self.side_z@,
        }
    }

    /// The texture path of `face`.
    pub fn path_for(&self, face: CubeFace) -> (p: &String)
        ensures
            p@ == self.spec_path_for(face),
    {
        match face {
            CubeFace::Top => &self.top,
            CubeFace::Bottom => &self.bottom,
            CubeFace::SideX => &self.side_x,
            CubeFace::SideZ => &self.side_z,
        }
    }
}

} // verus!
