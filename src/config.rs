//! What a run is asked to do: which solid, which image, what size, and whether
//! the render is also shown on screen.
use vstd::prelude::*;

verus! {

/// One run's configuration. Everything else (camera, lighting, material, clip
/// planes) is fixed by the renderer.
#[derive(Clone, Debug)]
pub struct Config {
    pub stl_filename: String,
    pub img_filename: String,
    pub width: u32,
    pub height: u32,
    pub visible: bool,
}

/// Why a configuration was refused.
#[derive(Clone, Copy, Debug, PartialEq, Eq, Structural)]
pub enum ConfigError {
    /// The output image would have no pixels.
    EmptyImage { width: u32, height: u32 },
}

impl Config {
    /// A render target has a positive width and a positive height.
    pub open spec fn valid(&self) -> bool {
        self.width > 0 && self.height > 0
    }

    /// Builds a configuration; refuses an output image of zero width or height.
    pub fn new(stl_filename: String, img_filename: String, width: u32, height: u32, visible: bool) -> (r: Result<Config, ConfigError>)
        ensures
            (width == 0 || height == 0) ==> r == Err::<Config, ConfigError>(
                ConfigError::EmptyImage { width, height },
            ),
            r matches Ok(c) ==> c.valid() && c.stl_filename@ == stl_filename@ && c.img_filename@
                == img_filename@ && c.width == width && c.height == height && c.visible == visible,
            (width > 0 && height > 0) ==> r is Ok,
    {
        if width == 0 || height == 0 {
            return Err(ConfigError::EmptyImage { width, height });
        }
        Ok(Config { stl_filename, img_filename, width, height, visible })
    }
}

} // verus!
