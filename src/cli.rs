//! The command-line options shared by the renderer's programs, and what they
//! decide: which renderer runs and with which configuration.

use crate::renderer::{RendererConfig, DEFAULT_MAX_BOUNCES, DEFAULT_MAX_SAMPLE_COUNT};
use std::path::PathBuf;
use vstd::prelude::*;

verus! {

/// `std::path::PathBuf`, carried through as an opaque value.
#[verifier::external_type_specification]
#[verifier::external_body]
pub struct ExPathBuf(PathBuf);

/// The renderer that a program runs.
#[derive(PartialEq, Eq, Structural, Debug, Clone, Copy)]
pub enum RendererKind {
    /// The reference path tracer on the CPU.
    Cpu,
    /// The hardware ray-tracing path tracer on the GPU.
    Vulkan,
}

/// Options that every program of the renderer takes.
pub struct CommonArgs {
    /// Use the CPU renderer instead of the GPU one.
    pub cpu: bool,
    /// Maximum number of samples per pixel.
    pub max_sample_count: Option<u32>,
    /// Maximum number of light bounces.
    pub max_bounces: Option<u32>,
    /// Path to the scene file; the built-in scene when absent.
    pub scene_file: Option<PathBuf>,
}

/// Options of the program that renders a scene to an image file.
pub struct RaydarArgs {
    pub common: CommonArgs,
    /// Where the image is written.
    pub output: PathBuf,
}

/// Options of the interactive editor.
pub struct RaydarEditorArgs {
    pub common: CommonArgs,
}

impl CommonArgs {
    /// The configuration that the options ask for: each limit given on the
    /// command line, the default for each one left out.
    pub fn renderer_config(&self) -> (r: RendererConfig)
        ensures
            r.max_sample_count == match self.max_sample_count {
                Some(n) => n,
                None => DEFAULT_MAX_SAMPLE_COUNT,
            },
            r.max_bounces == match self.max_bounces {
                Some(n) => n,
                None => DEFAULT_MAX_BOUNCES,
            },
    {
        let mut config = RendererConfig::default();
        if let Some(max_sample_count) = self.max_sample_count {
            config.max_sample_count = max_sample_count;
        }
        if let Some(max_bounces) = self.max_bounces {
            config.max_bounces = max_bounces;
        }
        config
    }

    /// The renderer that the options select.
    pub fn renderer_kind(&self) -> (r: RendererKind)
        ensures
            r == if self.cpu {
                RendererKind::Cpu
            } else {
                RendererKind::Vulkan
            },
    {
        if self.cpu {
            RendererKind::Cpu
        } else {
            RendererKind::Vulkan
        }
    }
}

} // verus!
