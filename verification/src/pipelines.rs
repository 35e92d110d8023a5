//! One description module per pass type: what each pass declares to get
//! its pipeline built, and which behaviour it runs per frame.

pub mod equirectangular;
pub mod irradiance;
pub mod pbr;
pub mod skybox;
pub mod specular;
pub mod specular_brdf;
pub mod unlit;
