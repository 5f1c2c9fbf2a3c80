//! Surfaces: a swapchain, its images, and the semaphores that order
//! acquiring, drawing and presenting.

use vstd::prelude::*;
use crate::caches::{after_views, dropped_for_views, FramebufferCache};
use crate::convert::{spec_vk_format, spec_vk_present_mode, to_vk_format, to_vk_present_mode};
use crate::types::{PresentMode, TextureFormat};

verus! {

/// Identifies a surface.
#[derive(Debug, Copy, Clone, PartialEq, Eq, Structural, Hash)]
pub struct SurfaceId(pub usize);

/// What a surface is to look like.
#[derive(Debug, Copy, Clone, PartialEq, Eq, Structural)]
pub struct SurfaceConfiguration {
    pub width: u32,
    pub height: u32,
    pub present_mode: PresentMode,
    pub format: TextureFormat,
}

#[derive(Debug)]
pub enum SurfaceCreateError {
    BadConfig,
    Other(String),
}

#[derive(Debug)]
pub enum SurfaceUpdateError {
    /// An acquired image has not been presented yet.
    ImagePending,
    BadConfig,
    Other(String),
}

#[derive(Debug)]
pub enum SurfaceImageAcquireError {
    /// Every image of the surface is acquired.
    NoImages,
    Other(String),
}

#[derive(Debug, Copy, Clone, PartialEq, Eq, Structural)]
pub enum SurfacePresentSuccess {
    /// The image was presented.
    Presented,
    /// The image was presented, but the surface has to be configured anew.
    Invalidated,
}

#[derive(Debug)]
pub enum SurfacePresentFailure {
    /// The image is not of this surface.
    BadImage,
    /// Nothing was drawn to the image.
    NoRender,
    Other(String),
}

/// The two binary semaphores of a surface image.
#[derive(Debug, Copy, Clone, PartialEq, Eq, Structural)]
pub struct SurfaceImageSemaphores {
    /// Signalled when the image can be drawn to.
    pub available: u64,
    /// To be signalled when the image can be presented.
    pub presentable: u64,
}

/// A native surface format.
#[derive(Debug, Copy, Clone, PartialEq, Eq, Structural)]
pub struct SurfaceFormat {
    pub format: i32,
    pub color_space: i32,
}

/// What the device can do with a surface.
#[derive(Debug, Copy, Clone, PartialEq, Eq)]
pub struct SurfaceCapabilities {
    pub min_image_count: u32,
    /// 0 when there is no limit.
    pub max_image_count: u32,
    pub max_image_extent: (u32, u32),
    pub supported_transforms: u32,
    pub current_transform: u32,
}

/// The queue families of the device's queues.
pub struct QueueFamilyIndices {
    /// Supports graphics, transfer and compute.
    pub main: u32,
    /// Supports presentation.
    pub present: u32,
    /// Supports transfer.
    pub transfer: u32,
    /// Supports compute.
    pub compute: u32,
    /// Each family of the four once.
    pub unique: Vec<u32>,
}

/// What a swapchain is created with.
#[derive(Debug)]
pub struct SwapchainPlan {
    pub min_image_count: u32,
    pub format: SurfaceFormat,
    pub extent: (u32, u32),
    pub pre_transform: u32,
    pub present_mode: i32,
    pub sharing_mode: i32,
    pub queue_family_indices: Vec<u32>,
}

/// The native objects of a surface that are to be destroyed.
#[derive(Debug)]
pub struct SurfaceRelease {
    /// The framebuffers over the views; they go before the views.
    pub framebuffers: Vec<u64>,
    pub semaphores: Vec<SurfaceImageSemaphores>,
    pub views: Vec<u64>,
    /// The swapchain, unless the surface had none.
    pub swapchain: Option<u64>,
}

/// What the native present call takes.
#[derive(Debug, Copy, Clone, PartialEq, Eq, Structural)]
pub struct PresentInfo {
    pub swapchain: u64,
    pub image_index: u32,
    pub wait_semaphore: u64,
}

/// A window surface with its swapchain.
pub struct Surface {
    pub surface: u64,
    /// The native swapchain; 0 when there is none.
    pub swapchain: u64,
    pub format: SurfaceFormat,
    pub resolution: (u32, u32),
    /// Each image with its view.
    pub images: Vec<(u64, u64)>,
    pub semaphores: Vec<SurfaceImageSemaphores>,
    /// The place of the semaphores that were handed out last.
    pub next_semaphore: usize,
    /// The number of acquired images that were not presented yet.
    pub images_acquired: usize,
}

/// An acquired image of a surface.
pub struct SurfaceImage {
    surface: u64,
    dims: (u32, u32),
    image: u64,
    view: u64,
    format: i32,
    image_idx: usize,
    semaphores: SurfaceImageSemaphores,
    used: bool,
}

/// The model of a [`SurfaceImage`].
pub struct SurfaceImageView {
    pub surface: u64,
    pub dims: (u32, u32),
    pub image: u64,
    pub view: u64,
    pub format: i32,
    pub image_idx: usize,
    pub semaphores: SurfaceImageSemaphores,
    /// Whether a submission drew to the image.
    pub used: bool,
}

pub const COLOR_SPACE_SRGB_NONLINEAR: i32 = 0;
pub const SURFACE_TRANSFORM_IDENTITY: u32 = 0x1;
pub const PRESENT_MODE_IMMEDIATE: i32 = 0;
pub const SHARING_MODE_EXCLUSIVE: i32 = 0;
pub const SHARING_MODE_CONCURRENT: i32 = 1;

/// One more image than the surface needs at least, but no more than it
/// allows.
pub open spec fn spec_image_count(caps: SurfaceCapabilities) -> u32 {
    if caps.max_image_count > 0 && caps.min_image_count + 1 > caps.max_image_count {
        caps.max_image_count
    } else {
        (caps.min_image_count + 1) as u32
    }
}

/// The lesser of two lengths.
pub open spec fn min_u32(a: u32, b: u32) -> u32 {
    if a <= b {
        a
    } else {
        b
    }
}

/// No transformation where the surface supports that, else the current
/// one.
pub open spec fn spec_pre_transform(caps: SurfaceCapabilities) -> u32 {
    if caps.supported_transforms & SURFACE_TRANSFORM_IDENTITY == SURFACE_TRANSFORM_IDENTITY {
        SURFACE_TRANSFORM_IDENTITY
    } else {
        caps.current_transform
    }
}

/// The present mode asked for where the surface offers it, else immediate
/// presentation.
pub open spec fn spec_present_mode(mode: PresentMode, offered: Seq<i32>) -> i32 {
    if offered.contains(spec_vk_present_mode(mode)) {
        spec_vk_present_mode(mode)
    } else {
        PRESENT_MODE_IMMEDIATE
    }
}

/// Whether a surface format is the wanted format in the sRGB color space.
pub open spec fn format_matches(f: SurfaceFormat, wanted: i32) -> bool {
    f.format == wanted && f.color_space == COLOR_SPACE_SRGB_NONLINEAR
}

/// The last of the first `n` offered formats that is the wanted one in the
/// sRGB color space; the first offered format when there is none.
pub open spec fn spec_pick_format(offered: Seq<SurfaceFormat>, wanted: i32, n: int) -> SurfaceFormat
    decreases n,
{
    if n <= 0 {
        offered[0]
    } else if format_matches(offered[n - 1], wanted) {
        offered[n - 1]
    } else {
        spec_pick_format(offered, wanted, n - 1)
    }
}

/// The families that share the swapchain's images: that of the present
/// queue, then that of the main queue and that of the transfer queue where
/// they differ from it.
pub open spec fn spec_sharing_indices(present: u32, main: u32, transfer: u32) -> Seq<u32> {
    let a = seq![present];
    let b = if present != main {
        a.push(main)
    } else {
        a
    };
    if present != transfer {
        b.push(transfer)
    } else {
        b
    }
}

/// Concurrent sharing when several families share the images, else
/// exclusive.
pub open spec fn spec_sharing_mode(present: u32, main: u32, transfer: u32) -> i32 {
    if present != main || present != transfer {
        SHARING_MODE_CONCURRENT
    } else {
        SHARING_MODE_EXCLUSIVE
    }
}

impl SurfaceImage {
    /// The image as a model.
    pub closed spec fn model(&self) -> SurfaceImageView {
        SurfaceImageView {
            surface: self.surface,
            dims: self.dims,
            image: self.image,
            view: self.view,
            format: self.format,
            image_idx: self.image_idx,
            semaphores: self.semaphores,
            used: self.used,
        }
    }
}

impl SurfaceImage {
    pub fn image(&self) -> (r: u64)
        ensures
            r == self.model().image,
    {
        self.image
    }

    pub fn index(&self) -> (r: usize)
        ensures
            r == self.model().image_idx,
    {
        self.image_idx
    }

    pub fn view(&self) -> (r: u64)
        ensures
            r == self.model().view,
    {
        self.view
    }

    pub fn surface(&self) -> (r: u64)
        ensures
            r == self.model().surface,
    {
        self.surface
    }

    /// Whether a submission drew to the image.
    pub fn is_signaled(&self) -> (r: bool)
        ensures
            r == self.model().used,
    {
        self.used
    }

    /// Notes that a submission drew to the image.
    pub fn signal_draw(&mut self)
        ensures
            final(self).model() == (SurfaceImageView { used: true, ..old(self).model() }),
    {
        self.used = true;
    }

    pub fn semaphores(&self) -> (r: &SurfaceImageSemaphores)
        ensures
            *r == self.model().semaphores,
    {
        &self.semaphores
    }

    pub fn dims(&self) -> (r: (u32, u32))
        ensures
            r == self.model().dims,
    {
        self.dims
    }

    pub fn format(&self) -> (r: i32)
        ensures
            r == self.model().format,
    {
        self.format
    }
}

impl Surface {
    /// Every image has its pair of semaphores, and no more images are
    /// acquired than there are.
    pub open spec fn wf(&self) -> bool {
        &&& self.semaphores@.len() == self.images@.len()
        &&& self.images_acquired <= self.images@.len()
        &&& self.next_semaphore < self.semaphores@.len() || self.semaphores@.len() == 0
    }

    /// The surface around the native surface `surface`, without a
    /// swapchain.
    pub fn new(surface: u64) -> (r: Self)
        ensures
            r.wf(),
            r.surface == surface,
            r.swapchain == 0,
            r.images@.len() == 0,
            r.semaphores@.len() == 0,
            r.images_acquired == 0,
            r.next_semaphore == 0,
    {
        Surface {
            surface,
            swapchain: 0,
            format: SurfaceFormat { format: 0, color_space: 0 },
            resolution: (0, 0),
            images: Vec::new(),
            semaphores: Vec::new(),
            next_semaphore: 0,
            images_acquired: 0,
        }
    }

    /// The width and height of the images.
    pub fn dimensions(&self) -> (r: (u32, u32))
        ensures
            r == self.resolution,
    {
        self.resolution
    }

    /// Plans a swapchain for `config` on a surface that can do `caps` and
    /// offers `present_modes` and `formats`. Refused while an acquired
    /// image is outstanding.
    pub fn update_config(
        &self,
        config: SurfaceConfiguration,
        caps: &SurfaceCapabilities,
        present_modes: &Vec<i32>,
        formats: &Vec<SurfaceFormat>,
        families: &QueueFamilyIndices,
    ) -> (r: Result<SwapchainPlan, SurfaceUpdateError>)
        requires
            config.width != 0,
            config.height != 0,
            formats@.len() > 0,
            caps.min_image_count < u32::MAX,
        ensures
            self.images_acquired != 0 ==> r is Err && r->Err_0 is ImagePending,
            self.images_acquired == 0 ==> r is Ok && {
                let plan = r->Ok_0;
                &&& plan.min_image_count == spec_image_count(*caps)
                &&& plan.extent == (
                    min_u32(config.width, caps.max_image_extent.0),
                    min_u32(config.height, caps.max_image_extent.1),
                )
                &&& plan.pre_transform == spec_pre_transform(*caps)
                &&& plan.present_mode == spec_present_mode(config.present_mode, present_modes@)
                &&& plan.format == spec_pick_format(
                    formats@,
                    spec_vk_format(config.format),
                    formats@.len() as int,
                )
                &&& plan.queue_family_indices@ == spec_sharing_indices(
                    families.present,
                    families.main,
                    families.transfer,
                )
                &&& plan.sharing_mode == spec_sharing_mode(
                    families.present,
                    families.main,
                    families.transfer,
                )
            },
    {
        if self.images_acquired != 0 {
            return Err(SurfaceUpdateError::ImagePending);
        }
        let mut desired_image_count = caps.min_image_count + 1;
        if caps.max_image_count > 0 && desired_image_count > caps.max_image_count {
            desired_image_count = caps.max_image_count;
        }
        let extent = (
            if config.width <= caps.max_image_extent.0 {
                config.width
            } else {
                caps.max_image_extent.0
            },
            if config.height <= caps.max_image_extent.1 {
                config.height
            } else {
                caps.max_image_extent.1
            },
        );
        let pre_transform = if caps.supported_transforms & SURFACE_TRANSFORM_IDENTITY
            == SURFACE_TRANSFORM_IDENTITY {
            SURFACE_TRANSFORM_IDENTITY
        } else {
            caps.current_transform
        };

        // Fall back when the mode asked for is not offered.
        let wanted_mode = to_vk_present_mode(config.present_mode);
        let mut offered = false;
        let mut i: usize = 0;
        while i < present_modes.len()
            invariant
                i <= present_modes@.len(),
                offered == present_modes@.take(i as int).contains(wanted_mode),
            decreases present_modes@.len() - i,
        {
            if present_modes[i] == wanted_mode {
                offered = true;
            }
            proof {
                let a = present_modes@.take(i as int);
                let b = present_modes@.take(i as int + 1);
                assert(b =~= a.push(present_modes@[i as int]));
                if a.contains(wanted_mode) {
                    let k = choose|k: int| 0 <= k < a.len() && a[k] == wanted_mode;
                    assert(b[k] == wanted_mode);
                }
                if present_modes@[i as int] == wanted_mode {
                    assert(b[i as int] == wanted_mode);
                }
            }
            i += 1;
        }
        proof {
            assert(present_modes@.take(present_modes@.len() as int) =~= present_modes@);
        }
        let present_mode = if offered {
            wanted_mode
        } else {
            PRESENT_MODE_IMMEDIATE
        };

        let vk_format = to_vk_format(config.format);
        let mut out_format = formats[0];
        let mut k: usize = 0;
        while k < formats.len()
            invariant
                k <= formats@.len(),
                formats@.len() > 0,
                out_format == spec_pick_format(formats@, vk_format, k as int),
            decreases formats@.len() - k,
        {
            let format = formats[k];
            if format.format == vk_format && format.color_space == COLOR_SPACE_SRGB_NONLINEAR {
                out_format = format;
            }
            k += 1;
        }

        let mut indices: Vec<u32> = Vec::new();
        let mut sharing_mode = SHARING_MODE_EXCLUSIVE;
        indices.push(families.present);
        if families.present != families.main {
            indices.push(families.main);
            sharing_mode = SHARING_MODE_CONCURRENT;
        }
        if families.present != families.transfer {
            indices.push(families.transfer);
            sharing_mode = SHARING_MODE_CONCURRENT;
        }
        proof {
            assert(indices@ =~= spec_sharing_indices(
                families.present,
                families.main,
                families.transfer,
            ));
        }
        Ok(
            SwapchainPlan {
                min_image_count: desired_image_count,
                format: out_format,
                extent,
                pre_transform,
                present_mode,
                sharing_mode,
                queue_family_indices: indices,
            },
        )
    }

    /// Gives up the swapchain, the views and the semaphores, and hands
    /// them back for destruction, with the framebuffers over the views,
    /// which leave their cache.
    pub fn release(&mut self, framebuffers: &mut FramebufferCache) -> (r: SurfaceRelease)
        requires
            old(framebuffers).wf(),
        ensures
            final(self).wf(),
            final(framebuffers).wf(),
            final(framebuffers)@ == after_views(
                old(framebuffers)@,
                Seq::new(old(self).images@.len(), |i: int| old(self).images@[i].1),
                old(self).images@.len() as int,
            ),
            r.framebuffers@ == dropped_for_views(
                old(framebuffers)@,
                Seq::new(old(self).images@.len(), |i: int| old(self).images@[i].1),
                old(self).images@.len() as int,
            ),
            final(self).surface == old(self).surface,
            final(self).swapchain == 0,
            final(self).images@.len() == 0,
            final(self).semaphores@.len() == 0,
            final(self).images_acquired == 0,
            final(self).next_semaphore == 0,
            final(self).format == old(self).format,
            final(self).resolution == old(self).resolution,
            r.semaphores@ == old(self).semaphores@,
            r.views@ == Seq::new(old(self).images@.len(), |i: int| old(self).images@[i].1),
            r.swapchain == (if old(self).swapchain != 0 {
                Some(old(self).swapchain)
            } else {
                None
            }),
    {
        let mut views: Vec<u64> = Vec::new();
        let mut i: usize = 0;
        while i < self.images.len()
            invariant
                i <= self.images@.len(),
                views@.len() == i,
                forall|k: int| 0 <= k < i ==> views@[k] == self.images@[k].1,
            decreases self.images@.len() - i,
        {
            views.push(self.images[i].1);
            i += 1;
        }
        proof {
            assert(views@ =~= Seq::new(self.images@.len(), |i: int| self.images@[i].1));
        }
        let mut semaphores: Vec<SurfaceImageSemaphores> = Vec::new();
        semaphores.append(&mut self.semaphores);
        assert(semaphores@ =~= old(self).semaphores@);
        self.images.clear();
        let swapchain = if self.swapchain != 0 {
            Some(self.swapchain)
        } else {
            None
        };
        self.swapchain = 0;
        self.images_acquired = 0;
        self.next_semaphore = 0;
        let gone = framebuffers.views_destroyed(&views);
        SurfaceRelease { framebuffers: gone, semaphores, views, swapchain }
    }

    /// Takes over a swapchain that was created by `plan`, with its images
    /// and views and a pair of semaphores for each image.
    pub fn install(
        &mut self,
        swapchain: u64,
        plan: &SwapchainPlan,
        images: Vec<(u64, u64)>,
        semaphores: Vec<SurfaceImageSemaphores>,
    )
        requires
            images@.len() == semaphores@.len(),
        ensures
            final(self).wf(),
            final(self).surface == old(self).surface,
            final(self).swapchain == swapchain,
            final(self).format == plan.format,
            final(self).resolution == plan.extent,
            final(self).images == images,
            final(self).semaphores == semaphores,
            final(self).next_semaphore == 0,
            final(self).images_acquired == 0,
    {
        self.swapchain = swapchain;
        self.format = plan.format;
        self.resolution = plan.extent;
        self.images = images;
        self.semaphores = semaphores;
        self.next_semaphore = 0;
        self.images_acquired = 0;
    }

    /// Moves on to the next pair of semaphores, for acquiring an image.
    /// Refused when every image is acquired.
    pub fn next_semaphores(&mut self) -> (r: Result<SurfaceImageSemaphores, SurfaceImageAcquireError>)
        requires
            old(self).wf(),
        ensures
            final(self).wf(),
            old(self).images_acquired + 1 > old(self).images@.len() ==> r is Err && r->Err_0
                is NoImages && *final(self) == *old(self),
            old(self).images_acquired + 1 <= old(self).images@.len() ==> {
                &&& r is Ok
                &&& final(self).next_semaphore == (old(self).next_semaphore + 1)
                    % old(self).semaphores@.len() as int
                &&& r->Ok_0 == old(self).semaphores@[final(self).next_semaphore as int]
                &&& *final(self) == (Surface { next_semaphore: final(self).next_semaphore, ..*old(self) })
            },
    {
        if self.images_acquired >= self.images.len() {
            return Err(SurfaceImageAcquireError::NoImages);
        }
        let n = self.semaphores.len();
        self.next_semaphore = if self.next_semaphore + 1 >= n {
            self.next_semaphore + 1 - n
        } else {
            self.next_semaphore + 1
        };
        assert(self.next_semaphore == (old(self).next_semaphore + 1) % n as int) by {
            let x = old(self).next_semaphore + 1;
            if x >= n {
                assert(x == n);
                assert(x % n as int == 0) by (nonlinear_arith)
                    requires
                        x == n,
                        n > 0,
                ;
            } else {
                assert(x % n as int == x) by (nonlinear_arith)
                    requires
                        0 <= x < n,
                ;
            }
        }
        Ok(self.semaphores[self.next_semaphore])
    }

    /// The image that the swapchain gave at place `image_idx`, acquired
    /// with `semaphores`; nothing was drawn to it yet.
    pub fn acquire_image(&mut self, image_idx: usize, semaphores: SurfaceImageSemaphores) -> (r:
        SurfaceImage)
        requires
            old(self).wf(),
            image_idx < old(self).images@.len(),
            old(self).images_acquired < old(self).images@.len(),
        ensures
            final(self).wf(),
            *final(self) == (Surface {
                images_acquired: (old(self).images_acquired + 1) as usize,
                ..*old(self)
            }),
            r.model() == (SurfaceImageView {
                surface: old(self).surface,
                dims: old(self).resolution,
                image: old(self).images@[image_idx as int].0,
                view: old(self).images@[image_idx as int].1,
                format: old(self).format.format,
                image_idx,
                semaphores,
                used: false,
            }),
    {
        let n = self.images.len();
        assert(self.images_acquired < n);
        self.images_acquired += 1;
        SurfaceImage {
            surface: self.surface,
            dims: self.resolution,
            image: self.images[image_idx].0,
            view: self.images[image_idx].1,
            format: self.format.format,
            image_idx,
            semaphores,
            used: false,
        }
    }

    /// What presenting `image` takes. An image of another surface is
    /// refused, and so is one that nothing was drawn to.
    pub fn present(&self, image: &SurfaceImage) -> (r: Result<PresentInfo, SurfacePresentFailure>)
        ensures
            image.model().surface != self.surface ==> r is Err && r->Err_0 is BadImage,
            image.model().surface == self.surface && !image.model().used ==> r is Err && r->Err_0 is NoRender,
            image.model().surface == self.surface && image.model().used ==> r is Ok && r->Ok_0 == (PresentInfo {
                swapchain: self.swapchain,
                image_index: image.model().image_idx as u32,
                wait_semaphore: image.model().semaphores.presentable,
            }),
    {
        if image.surface != self.surface {
            return Err(SurfacePresentFailure::BadImage);
        }
        if !image.used {
            return Err(SurfacePresentFailure::NoRender);
        }
        Ok(
            PresentInfo {
                swapchain: self.swapchain,
                image_index: image.image_idx as u32,
                wait_semaphore: image.semaphores.presentable,
            },
        )
    }

    /// Takes an acquired image back without presenting it. An image of
    /// another surface is left alone; says whether the image was taken
    /// back.
    pub fn recycle(&mut self, image: &SurfaceImage) -> (r: bool)
        ensures
            r == (image.model().surface == old(self).surface),
            *final(self) == (Surface {
                images_acquired: if r && old(self).images_acquired > 0 {
                    (old(self).images_acquired - 1) as usize
                } else {
                    old(self).images_acquired
                },
                ..*old(self)
            }),
    {
        if image.surface != self.surface {
            return false;
        }
        if self.images_acquired > 0 {
            self.images_acquired -= 1;
        }
        true
    }

    /// Notes that an acquired image was handed to the presentation engine,
    /// and says what the caller is told: that all is well, or, when the
    /// engine found the swapchain out of date, that the surface has to be
    /// configured anew.
    pub fn presented(&mut self, out_of_date: bool) -> (r: SurfacePresentSuccess)
        ensures
            r == (if out_of_date {
                SurfacePresentSuccess::Invalidated
            } else {
                SurfacePresentSuccess::Presented
            }),
            *final(self) == (Surface {
                images_acquired: if old(self).images_acquired > 0 {
                    (old(self).images_acquired - 1) as usize
                } else {
                    0
                },
                ..*old(self)
            }),
    {
        if self.images_acquired > 0 {
            self.images_acquired -= 1;
        }
        if out_of_date {
            SurfacePresentSuccess::Invalidated
        } else {
            SurfacePresentSuccess::Presented
        }
    }
}

} // verus!
