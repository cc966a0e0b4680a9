//! The presentation configuration of a window surface: how it is derived from
//! what the surface supports, and how window resizes change it.
use vstd::prelude::*;

use crate::gpu::format_is_srgb;

verus! {

/// Frames of queued-but-unpresented work the presentation engine may hold.
pub const FRAME_LATENCY: u32 = 2;

/// A size in physical pixels.
#[derive(Clone, Copy, Debug, PartialEq, Eq, Structural)]
pub struct PixelSize {
    pub width: u32,
    pub height: u32,
}

impl PixelSize {
    /// Both dimensions are nonzero: a size a surface can be configured with.
    pub open spec fn is_positive(self) -> bool {
        self.width > 0 && self.height > 0
    }

    pub fn new(width: u32, height: u32) -> (r: PixelSize)
        ensures
            r.width == width,
            r.height == height,
    {
        PixelSize { width, height }
    }

    pub fn is_nonzero(&self) -> (r: bool)
        ensures
            r == self.is_positive(),
    {
        self.width > 0 && self.height > 0
    }
}

/// What the surface is configured with when frames are presented to it.
#[derive(Clone, Copy, Debug)]
pub struct SurfaceSettings {
    pub format: wgpu::TextureFormat,
    pub present_mode: wgpu::PresentMode,
    pub alpha_mode: wgpu::CompositeAlphaMode,
    pub width: u32,
    pub height: u32,
    pub desired_maximum_frame_latency: u32,
}

/// Why a graphics context could not be built.
#[derive(Clone, Copy, Debug, PartialEq, Eq, Structural)]
pub enum InitError {
    /// No surface could be bound to the window.
    NoSurface,
    /// No adapter can present to the surface.
    NoAdapter,
    /// The adapter handed out no device.
    NoDevice,
    /// The surface reports no texture format.
    NoSurfaceFormat,
    /// The surface reports no presentation mode.
    NoPresentMode,
    /// The surface reports no alpha-compositing mode.
    NoAlphaMode,
}

/// `i` is the format to pick from a list whose sRGB flags are `flags`: the first
/// sRGB one, or the first of all when none is sRGB.
pub open spec fn is_preferred_format(flags: Seq<bool>, i: int) -> bool {
    &&& 0 <= i < flags.len()
    &&& {
        ||| flags[i] && (forall|j: int| 0 <= j < i ==> !flags[j])
        ||| i == 0 && (forall|j: int| 0 <= j < flags.len() ==> !flags[j])
    }
}

/// The index of the format to configure a surface with, given for each format
/// the surface supports whether it is sRGB; `None` when it supports none.
pub fn preferred_format_index(srgb: &Vec<bool>) -> (r: Option<usize>)
    ensures
        r is None <==> srgb@.len() == 0,
        r matches Some(i) ==> is_preferred_format(srgb@, i as int),
{
    if srgb.len() == 0 {
        return None;
    }
    let mut i: usize = 0;
    while i < srgb.len()
        invariant
            0 <= i <= srgb@.len(),
            forall|j: int| 0 <= j < i ==> !srgb@[j],
        decreases srgb@.len() - i,
    {
        if srgb[i] {
            return Some(i);
        }
        i = i + 1;
    }
    Some(0)
}

/// For each format, whether wgpu counts it as sRGB.
pub fn srgb_flags(formats: &Vec<wgpu::TextureFormat>) -> (r: Vec<bool>)
    ensures
        r@.len() == formats@.len(),
{
    let mut flags: Vec<bool> = Vec::new();
    let mut i: usize = 0;
    while i < formats.len()
        invariant
            i <= formats@.len(),
            flags@.len() == i,
        decreases formats@.len() - i,
    {
        flags.push(format_is_srgb(&formats[i]));
        i = i + 1;
    }
    flags
}

/// The logical half of a graphics context: the surface's configuration and
/// whether frames may be rendered into it yet.
#[derive(Clone, Copy, Debug)]
pub struct State {
    pub config: SurfaceSettings,
    pub surface_configured: bool,
}

impl State {
    /// A surface is only marked configured at a size it can be configured with,
    /// and always asks for the bounded frame latency.
    pub open spec fn wf(self) -> bool {
        &&& self.surface_configured ==> self.size().is_positive()
        &&& self.config.desired_maximum_frame_latency == FRAME_LATENCY
    }

    pub open spec fn size(self) -> PixelSize {
        PixelSize { width: self.config.width, height: self.config.height }
    }

    /// The state after the window reported `new_size`: zero sizes are ignored.
    pub open spec fn resized(self, new_size: PixelSize) -> State {
        if new_size.is_positive() {
            State {
                config: SurfaceSettings {
                    width: new_size.width,
                    height: new_size.height,
                    ..self.config
                },
                ..self
            }
        } else {
            self
        }
    }

    /// The error, if any, that the capability lists of a surface give.
    pub open spec fn capability_error(
        n_formats: nat,
        n_present_modes: nat,
        n_alpha_modes: nat,
    ) -> Option<InitError> {
        if n_formats == 0 {
            Some(InitError::NoSurfaceFormat)
        } else if n_present_modes == 0 {
            Some(InitError::NoPresentMode)
        } else if n_alpha_modes == 0 {
            Some(InitError::NoAlphaMode)
        } else {
            None
        }
    }

    /// The fields, other than the format, of a state built for a window of
    /// `size` from these capabilities.
    pub open spec fn built_from(
        self,
        present_modes: Seq<wgpu::PresentMode>,
        alpha_modes: Seq<wgpu::CompositeAlphaMode>,
        size: PixelSize,
        presentable_now: bool,
    ) -> bool {
        &&& self.config.present_mode == present_modes[0]
        &&& self.config.alpha_mode == alpha_modes[0]
        &&& self.size() == size
        &&& self.config.desired_maximum_frame_latency == FRAME_LATENCY
        &&& self.surface_configured == (presentable_now && size.is_positive())
    }

    /// Derives the configuration for a window of `size` from the capabilities the
    /// surface reports, given for each format whether it is sRGB. The surface is
    /// configured at once when it is presentable now and the size is nonzero;
    /// otherwise only after the first resize.
    pub fn from_capabilities(
        formats: &Vec<wgpu::TextureFormat>,
        srgb: &Vec<bool>,
        present_modes: &Vec<wgpu::PresentMode>,
        alpha_modes: &Vec<wgpu::CompositeAlphaMode>,
        size: PixelSize,
        presentable_now: bool,
    ) -> (r: Result<State, InitError>)
        requires
            srgb@.len() == formats@.len(),
        ensures
            r is Err <==> State::capability_error(
                formats@.len(),
                present_modes@.len(),
                alpha_modes@.len(),
            ) is Some,
            r matches Err(e) ==> State::capability_error(
                formats@.len(),
                present_modes@.len(),
                alpha_modes@.len(),
            ) == Some(e),
            r matches Ok(s) ==> {
                &&& s.wf()
                &&& s.built_from(present_modes@, alpha_modes@, size, presentable_now)
                &&& exists|i: int| is_preferred_format(srgb@, i) && s.config.format == formats@[i]
            },
    {
        let chosen = preferred_format_index(srgb);
        let i = match chosen {
            None => {
                return Err(InitError::NoSurfaceFormat);
            },
            Some(i) => i,
        };
        if present_modes.len() == 0 {
            return Err(InitError::NoPresentMode);
        }
        if alpha_modes.len() == 0 {
            return Err(InitError::NoAlphaMode);
        }
        let config = SurfaceSettings {
            format: formats[i],
            present_mode: present_modes[0],
            alpha_mode: alpha_modes[0],
            width: size.width,
            height: size.height,
            desired_maximum_frame_latency: FRAME_LATENCY,
        };
        let s = State { config, surface_configured: presentable_now && size.is_nonzero() };
        assert(is_preferred_format(srgb@, i as int) && s.config.format == formats@[i as int]);
        Ok(s)
    }

    /// Builds the state of a new graphics context from the capabilities that the
    /// surface reports, preferring an sRGB format as wgpu classifies formats.
    pub fn new(
        formats: &Vec<wgpu::TextureFormat>,
        present_modes: &Vec<wgpu::PresentMode>,
        alpha_modes: &Vec<wgpu::CompositeAlphaMode>,
        size: PixelSize,
        presentable_now: bool,
    ) -> (r: Result<State, InitError>)
        ensures
            r is Err <==> State::capability_error(
                formats@.len(),
                present_modes@.len(),
                alpha_modes@.len(),
            ) is Some,
            r matches Err(e) ==> State::capability_error(
                formats@.len(),
                present_modes@.len(),
                alpha_modes@.len(),
            ) == Some(e),
            r matches Ok(s) ==> {
                &&& s.wf()
                &&& s.built_from(present_modes@, alpha_modes@, size, presentable_now)
                &&& exists|i: int| 0 <= i < formats@.len() && s.config.format == formats@[i]
            },
    {
        let srgb = srgb_flags(formats);
        State::from_capabilities(formats, &srgb, present_modes, alpha_modes, size, presentable_now)
    }

    /// Applies a size the window reported. A size with a zero dimension (a
    /// minimized or hidden window) changes nothing; any other becomes the
    /// configured size. Returns whether the surface must be reconfigured.
    pub fn resize(&mut self, new_size: PixelSize) -> (reconfigure: bool)
        requires
            old(self).wf(),
        ensures
            final(self).wf(),
            *final(self) == old(self).resized(new_size),
            reconfigure == new_size.is_positive(),
    {
        if new_size.is_nonzero() {
            self.config.width = new_size.width;
            self.config.height = new_size.height;
            true
        } else {
            false
        }
    }

    pub fn size_now(&self) -> (r: PixelSize)
        ensures
            r == self.size(),
    {
        PixelSize { width: self.config.width, height: self.config.height }
    }
}

} // verus!
