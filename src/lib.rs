pub mod color;
pub mod material;
pub mod skybox;
pub mod texture;
pub mod textures;
pub mod trace;
