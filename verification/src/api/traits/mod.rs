//! What every backend must be able to do.
//!
//! Each abstract entity has a trait that says how a backend describes the
//! native object to create, and how it takes the object in once the native
//! call has been made.  A backend names its realisation of each entity through
//! [`GraphicsApi`], so that code written against the traits never names a
//! backend.

pub mod constants;

use vstd::prelude::*;
use crate::datatypes::{DeviceType, Extent2D, PresentMode, SurfaceFormat, Vendor};
use crate::error::Error;
use crate::info::{
    CommandBufferAllocateInfo, CommandPoolCreateInfo, ContextCreateInfo, Features,
    FenceCreateInfo, FramebufferCreateInfo, GraphicsPipelineCreateInfo, ImageViewCreateInfo,
    PipelineLayoutCreateInfo, RenderPassCreateInfo, RootCreateInfo, SemaphoreCreateInfo,
    ShaderCode, SurfaceCreateInfo, SwapchainCreateInfo,
};
use crate::ownership::{
    adopt_cyclic, can_adopt, entered, grown, handed_out, holds, kept, refusal, release, Destroy,
    Kept, Node, ObjectId, ObjectKind, Objects,
};
use self::constants::{
    BlendFactorConstants, BlendOpConstants, ColorComponentConstants, ColorSpaceConstants,
    CompositeAlphaConstants, CullModeConstants, DataFormatConstants, DeviceTypeConstants,
    FrontFaceConstants, PolygonModeConstants, PresentModeConstants, PrimitiveTopologyConstants,
};

verus! {

/// The family of types and tables by which one backend realises the abstract
/// entities.
pub trait GraphicsApi: Sized {
    type Root: ApiRoot<Device = Self::Device>;

    type Device: Device<Properties = Self::DeviceProperties, Capabilities = Self::SurfaceCapabilities>;

    type DeviceProperties: DeviceProperties;

    type Surface: Surface<Root = Self::Root>;

    type SurfaceCapabilities: SurfaceCapabilities;

    type Context: Context<Root = Self::Root, Device = Self::Device, Queue = Self::Queue>;

    type Queue: Queue;

    type CommandPool: CommandPool<Context = Self::Context>;

    type CommandBuffer: CommandBuffer<CommandPool = Self::CommandPool>;

    type Swapchain: Swapchain<
        Context = Self::Context,
        Surface = Self::Surface,
        Image = Self::Image,
        Semaphore = Self::Semaphore,
        Fence = Self::Fence,
    >;

    type Image: Image;

    type ImageView: ImageView<Context = Self::Context, Image = Self::Image>;

    type Shader: Shader<Context = Self::Context>;

    type RenderPass: RenderPass<Context = Self::Context>;

    type Framebuffer: Framebuffer<
        Context = Self::Context,
        RenderPass = Self::RenderPass,
        ImageView = Self::ImageView,
    >;

    type PipelineLayout: PipelineLayout<Context = Self::Context>;

    type GraphicsPipeline: GraphicsPipeline<
        Context = Self::Context,
        Shader = Self::Shader,
        PipelineLayout = Self::PipelineLayout,
        RenderPass = Self::RenderPass,
    >;

    type Fence: Fence<Context = Self::Context>;

    type Semaphore: Semaphore<Context = Self::Context>;

    type DeviceTypeConstants: DeviceTypeConstants;

    type CompositeAlphaConstants: CompositeAlphaConstants;

    type ColorSpaceConstants: ColorSpaceConstants;

    type DataFormatConstants: DataFormatConstants;

    type PresentModeConstants: PresentModeConstants;

    type BlendOpConstants: BlendOpConstants;

    type BlendFactorConstants: BlendFactorConstants;

    type ColorComponentConstants: ColorComponentConstants;

    type PolygonModeConstants: PolygonModeConstants;

    type CullModeConstants: CullModeConstants;

    type FrontFaceConstants: FrontFaceConstants;

    type PrimitiveTopologyConstants: PrimitiveTopologyConstants;
}

/// A native object entered in a table of [`Objects`]: the native handle, and
/// the record that decides how long the object lives.
///
/// A value of such a type stands for one handle.  Nothing is counted when the
/// value is copied or dropped: a second handle is had by [`share`](Self::share),
/// and a handle is given up by [`release`](Self::release).
pub trait Object: Sized {
    /// The native handle.
    spec fn native(&self) -> u64;

    /// The record of the object.
    spec fn record(&self) -> ObjectId;

    /// The error by which the backend reports that a native call failed with
    /// `code`.
    spec fn failure(code: i32) -> Error;

    /// The native handle.
    fn handle(&self) -> (handle: u64)
        ensures
            handle == self.native(),
    ;

    /// The record of the object.
    fn ownership(&self) -> (id: ObjectId)
        ensures
            id == self.record(),
    ;

    /// Whether this handle belongs to the table `objects`.
    fn is_known(&self, objects: &Objects) -> (yes: bool)
        ensures
            yes == holds(objects@, self.record(), self.native()),
    {
        objects.holds(self.ownership(), self.handle())
    }

    /// Another handle on the same object, which keeps it alive as this one
    /// does.
    fn share(&self, objects: &mut Objects) -> (twin: Result<Self, Error>)
        requires
            old(objects).wf(),
            holds(old(objects)@, self.record(), self.native()),
        ensures
            final(objects).wf(),
            grown(old(objects)@, final(objects)@),
            handed_out(
                old(objects)@,
                final(objects)@,
                self.record()@,
                match twin {
                    Ok(_) => Ok(()),
                    Err(e) => Err(e),
                },
            ),
            twin matches Ok(other) ==> other.native() == self.native() && other.record()
                == self.record(),
    ;

    /// Gives this handle up.  What comes back is the native objects to
    /// destroy, in the order in which to destroy them: the object itself if
    /// this was the last that kept it alive, then whatever it alone kept alive.
    fn release(self, objects: &mut Objects) -> (actions: Vec<Destroy>)
        requires
            old(objects).wf(),
            holds(old(objects)@, self.record(), self.native()),
        ensures
            final(objects).wf(),
            grown(old(objects)@, final(objects)@),
            (final(objects)@, actions@) == release(old(objects)@, self.record()@),
    {
        objects.release(self.ownership())
    }
}

/// The handle `object` belongs to the table `m`: it was entered there, so that
/// its record is a record of `m` and stands for its native object.  A handle
/// is only ever used with the table it belongs to.
pub open spec fn belongs<O: Object>(object: &O, m: Seq<Node>) -> bool {
    holds(m, object.record(), object.native())
}

/// What a native creation call handed back, with its failure put as the
/// backend of `O` reports it.
pub open spec fn created<O: Object>(native: Result<u64, i32>) -> Result<u64, Error> {
    match native {
        Ok(handle) => Ok(handle),
        Err(code) => Err(O::failure(code)),
    }
}

/// What a constructor handed back, as the table of objects sees it: the
/// native handle and the record of the new object, or the error.
pub open spec fn entry<O: Object>(object: Result<O, Error>) -> Result<(u64, ObjectId), Error> {
    match object {
        Ok(o) => Ok((o.native(), o.record())),
        Err(e) => Err(e),
    }
}

/// The native object that is left over when a constructor was handed `native`
/// and answered `taken`: the object that was created, where the constructor
/// did not take it in.  Nothing in the table stands for it, so it is to be
/// destroyed at once.
pub open spec fn orphan<O>(native: Result<u64, i32>, taken: Result<O, Error>) -> Option<u64> {
    match (native, taken) {
        (Ok(handle), Err(_)) => Some(handle),
        _ => None,
    }
}

/// Decides what is to be destroyed at once after a constructor was handed
/// `native` and answered `taken`: the native object that was created, where
/// the constructor did not take it in, so that it does not leak.
pub fn orphaned<O>(native: Result<u64, i32>, taken: &Result<O, Error>) -> (left: Option<u64>)
    ensures
        left == orphan(native, *taken),
{
    match native {
        Ok(handle) => match taken {
            Ok(_) => None,
            Err(_) => Some(handle),
        },
        Err(_) => None,
    }
}

/// The entry point of a backend, from which devices are found.
pub trait ApiRoot: Object {
    type Device;

    /// What the native creation call is given.
    type Description;

    /// Describes the native root to create.
    fn describe(create_info: &RootCreateInfo, features: &Features) -> Self::Description
        requires
            features.graphics ==> features.platform is Windows,
    ;

    /// Takes in the native root that was created, or reports why none was.
    fn new(objects: &mut Objects, native: Result<u64, i32>) -> (root: Result<Self, Error>)
        requires
            old(objects).wf(),
        ensures
            final(objects).wf(),
            grown(old(objects)@, final(objects)@),
            root matches Ok(o) ==> belongs(&o, final(objects)@),
            entered(
                old(objects)@,
                final(objects)@,
                ObjectKind::Root,
                Seq::<ObjectId>::empty(),
                created::<Self>(native),
                entry(root),
            ),
    ;

    /// The devices found under this root, if they have been looked for.  They
    /// are kept beside the record of the root, so that every handle on the
    /// root finds them.  Looking for them is the caller's to do, once:
    /// [`found`](Self::found) keeps what was found.
    fn devices<'a>(&self, found: &'a Kept<Vec<Self::Device>>) -> (devices: Option<
        &'a [Self::Device],
    >)
        ensures
            match devices {
                Some(list) => found.at(self.record()@) matches Some(all) && all@ == list@,
                None => found.at(self.record()@) is None,
            },
    {
        match found.get(self.ownership()) {
            Some(list) => Some(list.as_slice()),
            None => None,
        }
    }

    /// Keeps the devices that were found under this root, unless devices were
    /// kept for it before: the first answer stands, whichever handle on the
    /// root gave it.  What is kept for other roots stays.
    fn found(&self, found: &mut Kept<Vec<Self::Device>>, devices: Vec<Self::Device>)
        ensures
            final(found).at(self.record()@) == kept(old(found).at(self.record()@), devices),
            forall|record: int|
                record != self.record()@ ==> final(found).at(record) == old(found).at(record),
    {
        found.keep(self.ownership(), devices)
    }
}

/// Enumeration happens once.  Whatever is found after devices have been kept
/// for a root changes nothing: every handle on a root that has looked for its
/// devices answers with the same devices ever after.
pub proof fn law_first_enumeration_stands<D>(before: Option<Vec<D>>, first: Vec<D>, second: Vec<D>)
    ensures
        kept(before, first) is Some,
        kept(kept(before, first), second) == kept(before, first),
        before is None ==> kept(kept(before, first), second) == Some(first),
{
}

/// What a device says of itself.
pub trait DeviceProperties: Sized {
    /// The device gave a name that is text.
    spec fn named(&self) -> bool;

    /// The name of the device, where it gave one that is text.
    spec fn device_name(&self) -> Seq<char>;

    /// The class of the device, where the backend tells it.
    spec fn class(&self) -> Option<DeviceType>;

    /// The maker of the device, where this library knows it by name.
    spec fn maker(&self) -> Option<Vendor>;

    /// Whether the device gave a name that is text.
    fn is_named(&self) -> (yes: bool)
        ensures
            yes == self.named(),
    ;

    /// The name of the device, which must have given one that is text.
    fn name(&self) -> (name: &str)
        requires
            self.named(),
        ensures
            name@ == self.device_name(),
    ;

    /// The class of the device, where the backend tells it.
    fn device_type(&self) -> (class: Option<DeviceType>)
        ensures
            class == self.class(),
    ;

    /// The maker of the device, where this library knows it by name.
    fn vendor(&self) -> (maker: Option<Vendor>)
        ensures
            maker == self.maker(),
    ;
}

/// What a device can optionally do.  Nothing is asked of it yet.
pub trait DeviceFeatures: Sized {

}

/// The limits within which a surface can carry a swapchain.
#[derive(Debug, Copy, Clone, PartialEq, Eq, Structural)]
pub struct SurfaceLimits {
    pub min_image_count: u32,
    /// Zero where the surface sets no upper limit.
    pub max_image_count: u32,
    pub current_extent: Extent2D,
    pub min_image_extent: Extent2D,
    pub max_image_extent: Extent2D,
    pub max_image_array_layers: u32,
}

/// What a device reports of a surface.
pub trait SurfaceCapabilities: Sized {
    /// Everything that is reported.
    spec fn limits(&self) -> SurfaceLimits;

    fn min_image_count(&self) -> (count: u32)
        ensures
            count == self.limits().min_image_count,
    ;

    fn max_image_count(&self) -> (count: u32)
        ensures
            count == self.limits().max_image_count,
    ;

    fn current_extent(&self) -> (extent: Extent2D)
        ensures
            extent == self.limits().current_extent,
    ;

    fn min_image_extent(&self) -> (extent: Extent2D)
        ensures
            extent == self.limits().min_image_extent,
    ;

    fn max_image_extent(&self) -> (extent: Extent2D)
        ensures
            extent == self.limits().max_image_extent,
    ;

    fn max_image_array_layers(&self) -> (layers: u32)
        ensures
            layers == self.limits().max_image_array_layers,
    ;
}

/// The number of swapchain images to ask for when `preferred` are wanted and
/// the surface allows between `min` and `max`: the nearest allowed number,
/// where a `max` of zero allows any number.
pub open spec fn image_count(min: u32, max: u32, preferred: u32) -> u32 {
    if preferred < min {
        min
    } else if max != 0 && preferred > max {
        max
    } else {
        preferred
    }
}

/// The count that is settled lies within what the surface allows, is the
/// preferred count wherever that is allowed, and is not brought down where
/// the surface sets no upper limit.
pub proof fn law_image_count(min: u32, max: u32, preferred: u32)
    requires
        max == 0 || min <= max,
    ensures
        min <= image_count(min, max, preferred),
        max != 0 ==> image_count(min, max, preferred) <= max,
        max == 0 ==> image_count(min, max, preferred) >= preferred,
        min <= preferred && (max == 0 || preferred <= max) ==> image_count(min, max, preferred)
            == preferred,
        image_count(min, max, image_count(min, max, preferred)) == image_count(min, max, preferred),
{
}

/// Settles the number of swapchain images to ask for when `preferred` are
/// wanted and the surface allows between `min` and `max`, where a `max` of
/// zero allows any number.
pub fn clamp_image_count(min: u32, max: u32, preferred: u32) -> (count: u32)
    requires
        max == 0 || min <= max,
    ensures
        count == image_count(min, max, preferred),
{
    if preferred < min {
        min
    } else if max != 0 && preferred > max {
        max
    } else {
        preferred
    }
}

/// Settles the number of swapchain images to ask for, given what the surface
/// allows and how many the caller would like.
pub fn select_image_count<C: SurfaceCapabilities>(capabilities: &C, preferred: u32) -> (count: u32)
    requires
        capabilities.limits().max_image_count == 0 || capabilities.limits().min_image_count
            <= capabilities.limits().max_image_count,
    ensures
        count == image_count(
            capabilities.limits().min_image_count,
            capabilities.limits().max_image_count,
            preferred,
        ),
{
    clamp_image_count(capabilities.min_image_count(), capabilities.max_image_count(), preferred)
}

/// A device that can be chosen to create a context on.
pub trait Device: Sized {
    type Properties: DeviceProperties;

    type Capabilities: SurfaceCapabilities;

    /// What the native query for the capabilities of a surface hands back.
    type NativeCapabilities;

    /// What the native query for the formats of a surface hands back.
    type NativeFormats;

    /// What the native query for the present modes of a surface hands back.
    type NativeModes;

    /// What the device says of itself.
    spec fn described(&self) -> Self::Properties;

    /// Whether the device presents to a surface of which the native query said
    /// `native`.
    spec fn presents(native: bool) -> bool;

    /// The backend can make sense of these native capabilities.
    spec fn understands_capabilities(native: Self::NativeCapabilities) -> bool;

    /// The backend knows every one of these native formats.
    spec fn understands_formats(native: Self::NativeFormats) -> bool;

    /// The backend knows every one of these native present modes.
    spec fn understands_modes(native: Self::NativeModes) -> bool;

    /// The capabilities that these native capabilities stand for.
    spec fn capabilities_of(native: Self::NativeCapabilities) -> Self::Capabilities;

    /// The formats that these native formats stand for, in the same order.
    spec fn formats_of(native: Self::NativeFormats) -> Seq<SurfaceFormat>;

    /// The present modes that these native modes stand for, in the same order.
    spec fn modes_of(native: Self::NativeModes) -> Seq<PresentMode>;

    /// How the backend reports that a native query failed with `code`.
    spec fn query_failure(code: i32) -> Error;

    /// What the device says of itself.
    fn properties(&self) -> (properties: &Self::Properties)
        ensures
            *properties == self.described(),
    ;

    /// Whether the device can present to a surface, given what the native
    /// query said.
    fn supports_surface(&self, native: bool) -> (yes: bool)
        ensures
            yes == Self::presents(native),
    ;

    /// The capabilities of a surface, from the answer to the native query.  An
    /// answer that the backend cannot make sense of is a defect, not an input.
    fn get_surface_capabilities(
        &self,
        native: Result<Self::NativeCapabilities, i32>,
    ) -> (capabilities: Result<Self::Capabilities, Error>)
        requires
            native matches Ok(answer) ==> Self::understands_capabilities(answer),
        ensures
            capabilities == match native {
                Ok(answer) => Ok::<Self::Capabilities, Error>(Self::capabilities_of(answer)),
                Err(code) => Err::<Self::Capabilities, Error>(Self::query_failure(code)),
            },
    ;

    /// The formats of a surface, from the answer to the native query.  A
    /// format that the backend does not know is a defect, not an input.
    fn get_surface_formats(
        &self,
        native: Result<Self::NativeFormats, i32>,
    ) -> (formats: Result<Vec<SurfaceFormat>, Error>)
        requires
            native matches Ok(answer) ==> Self::understands_formats(answer),
        ensures
            match native {
                Ok(answer) => formats matches Ok(list) && list@ == Self::formats_of(answer),
                Err(code) => formats matches Err(e) && e == Self::query_failure(code),
            },
    ;

    /// The present modes of a surface, from the answer to the native query.
    /// A mode that the backend does not know is a defect, not an input.
    fn get_surface_present_modes(
        &self,
        native: Result<Self::NativeModes, i32>,
    ) -> (modes: Result<Vec<PresentMode>, Error>)
        requires
            native matches Ok(answer) ==> Self::understands_modes(answer),
        ensures
            match native {
                Ok(answer) => modes matches Ok(list) && list@ == Self::modes_of(answer),
                Err(code) => modes matches Err(e) && e == Self::query_failure(code),
            },
    ;
}

/// A window to present to.
pub trait Surface: Object {
    type Root: Object;

    /// What the native creation call is given.
    type Description;

    /// The records that a surface created under `root` keeps alive.
    spec fn retains(root: &Self::Root) -> Seq<ObjectId>;

    /// Describes the native surface to create.
    fn describe(create_info: &SurfaceCreateInfo) -> Self::Description;

    /// Takes in the native surface that was created under `root`, or reports
    /// why none was.
    fn new(
        objects: &mut Objects,
        root: &Self::Root,
        native: Result<u64, i32>,
    ) -> (surface: Result<Self, Error>)
        requires
            old(objects).wf(),
            belongs(root, old(objects)@),
        ensures
            final(objects).wf(),
            grown(old(objects)@, final(objects)@),
            surface matches Ok(o) ==> belongs(&o, final(objects)@),
            entered(
                old(objects)@,
                final(objects)@,
                ObjectKind::Surface,
                Self::retains(root),
                created::<Self>(native),
                entry(surface),
            ),
    ;
}

/// The native handles that creating a context yields: the context itself and
/// the one queue it comes with.
#[derive(Debug, Copy, Clone, PartialEq, Eq, Structural)]
pub struct ContextHandles {
    pub context: u64,
    pub queue: u64,
}

/// A logical device: the scope in which resources and commands are created.
pub trait Context: Object {
    type Root: Object;

    type Device;

    type Queue: Queue;

    /// What the native creation call is given.
    type Description;

    /// The queues of the context.
    spec fn owned_queues(&self) -> Seq<Self::Queue>;

    /// Describes the native context to create.
    fn describe(create_info: &ContextCreateInfo, features: &Features) -> Self::Description;

    /// Takes in the native context that was created under `root` on `device`,
    /// with its queue, or reports why none was.
    fn new(
        objects: &mut Objects,
        root: &Self::Root,
        device: &Self::Device,
        native: Result<ContextHandles, i32>,
    ) -> (context: Result<Self, Error>)
        requires
            old(objects).wf(),
            belongs(root, old(objects)@),
        ensures
            final(objects).wf(),
            grown(old(objects)@, final(objects)@),
            context matches Ok(o) ==> belongs(&o, final(objects)@),
            context matches Ok(o) ==> belongs(&o.owned_queues()[0], final(objects)@),
            match native {
                Err(code) => context matches Err(e) && e == Self::failure(code) && final(objects)@
                    == old(objects)@,
                Ok(handles) => if can_adopt(old(objects)@, seq![root.record()], 2) {
                    &&& context matches Ok(c)
                    &&& c.native() == handles.context
                    &&& c.record()@ == old(objects)@.len() + 1
                    &&& c.owned_queues().len() == 1
                    &&& c.owned_queues()[0].native() == handles.queue
                    &&& c.owned_queues()[0].record()@ == old(objects)@.len()
                    &&& final(objects)@ == adopt_cyclic(
                        old(objects)@,
                        ObjectKind::Context,
                        handles.context,
                        seq![root.record()],
                        ObjectKind::Queue,
                        handles.queue,
                    )
                } else {
                    &&& context matches Err(e)
                    &&& e == refusal(old(objects)@, seq![root.record()])
                    &&& final(objects)@ == old(objects)@
                },
            },
    ;

    /// The queues of the context.  They belong to the context: share one to
    /// hold it on your own account.
    fn queues(&self) -> (queues: &[Self::Queue])
        ensures
            queues@ == self.owned_queues(),
    ;
}

/// A channel through which commands are submitted.
pub trait Queue: Object {

}

/// The scope from which command buffers are allocated.
pub trait CommandPool: Object {
    type Context: Object;

    /// What the native creation call is given.
    type Description;

    /// The record of the context in which the pool was created.
    spec fn scope(&self) -> ObjectId;

    /// Describes the native pool to create.
    fn describe(create_info: &CommandPoolCreateInfo) -> Self::Description;

    /// Takes in the native pool that was created in `context`, or reports why
    /// none was.
    fn new(
        objects: &mut Objects,
        context: &Self::Context,
        native: Result<u64, i32>,
    ) -> (pool: Result<Self, Error>)
        requires
            old(objects).wf(),
            belongs(context, old(objects)@),
        ensures
            final(objects).wf(),
            grown(old(objects)@, final(objects)@),
            pool matches Ok(o) ==> belongs(&o, final(objects)@),
            entered(
                old(objects)@,
                final(objects)@,
                ObjectKind::CommandPool,
                seq![context.record()],
                created::<Self>(native),
                entry(pool),
            ),
            pool matches Ok(p) ==> p.scope() == context.record(),
    ;
}

/// A recording of commands.
pub trait CommandBuffer: Object {
    type CommandPool: CommandPool;

    /// What the native allocation call is given.
    type Description;

    /// Describes the native buffer to allocate from `pool`.
    fn describe(
        pool: &Self::CommandPool,
        create_info: &CommandBufferAllocateInfo,
    ) -> Self::Description;

    /// Takes in the native buffer that was allocated from `pool`, or reports
    /// why none was.
    fn allocate(
        objects: &mut Objects,
        pool: &Self::CommandPool,
        native: Result<u64, i32>,
    ) -> (buffer: Result<Self, Error>)
        requires
            old(objects).wf(),
            belongs(pool, old(objects)@),
        ensures
            final(objects).wf(),
            grown(old(objects)@, final(objects)@),
            buffer matches Ok(o) ==> belongs(&o, final(objects)@),
            entered(
                old(objects)@,
                final(objects)@,
                ObjectKind::CommandBuffer,
                seq![pool.record(), pool.scope()],
                created::<Self>(native),
                entry(buffer),
            ),
    ;
}

/// A ring of images that are presented to a surface in turn.
pub trait Swapchain: Object {
    type Context: Context;

    type Surface: Object;

    type Image: Image;

    type Semaphore: Object;

    type Fence: Object;

    /// What the native creation call is given.
    type Description;

    /// What the native call that acquires an image is given.
    type Acquisition;

    /// The images of the swapchain.
    spec fn presentable(&self) -> Seq<Self::Image>;

    /// The acquisition of the next image of this swapchain that waits for
    /// `timeout` nanoseconds, or for as long as it takes where there is no
    /// timeout, and signals the semaphore and the fence with these native
    /// handles; or the error, where the backend cannot acquire an image.
    spec fn acquisition(
        &self,
        timeout: Option<u128>,
        semaphore: Option<u64>,
        fence: Option<u64>,
    ) -> Result<Self::Acquisition, Error>;

    /// The records that a swapchain created in `context` on `surface` keeps
    /// alive, in the order in which it lets go of them.
    spec fn retains(context: &Self::Context, surface: &Self::Surface) -> Seq<ObjectId>;

    /// The image behind a native handle.
    spec fn image(handle: u64) -> Self::Image;

    /// Describes the native swapchain to create in `context` on `surface`.  The
    /// number of images, the format and the colour space are taken as they are
    /// given: it is the caller's to settle them against what the device
    /// reported.
    fn describe(
        context: &Self::Context,
        surface: &Self::Surface,
        create_info: &SwapchainCreateInfo,
    ) -> Self::Description
        requires
            context.owned_queues().len() > 0,
    ;

    /// Takes in the native swapchain that was created in `context` for
    /// `surface`, with the images it came with, or reports why none was.
    fn new(
        objects: &mut Objects,
        context: &Self::Context,
        surface: &Self::Surface,
        native: Result<u64, i32>,
        images: Result<Vec<u64>, i32>,
    ) -> (swapchain: Result<Self, Error>)
        requires
            old(objects).wf(),
            belongs(context, old(objects)@),
            belongs(surface, old(objects)@),
        ensures
            final(objects).wf(),
            grown(old(objects)@, final(objects)@),
            swapchain matches Ok(o) ==> belongs(&o, final(objects)@),
            match (native, images) {
                (Ok(_), Err(code)) => swapchain matches Err(e) && e == Self::failure(code)
                    && final(objects)@ == old(objects)@,
                _ => entered(
                    old(objects)@,
                    final(objects)@,
                    ObjectKind::Swapchain,
                    Self::retains(context, surface),
                    created::<Self>(native),
                    entry(swapchain),
                ),
            },
            swapchain matches Ok(s) ==> (images matches Ok(handles) && s.presentable()
                == handles@.map_values(|handle: u64| Self::image(handle))),
    ;

    /// The images of the swapchain.
    fn images(&self) -> (images: &[Self::Image])
        ensures
            images@ == self.presentable(),
    ;

    /// Describes the acquisition of the next image: how long to wait, in
    /// nanoseconds, and what to signal when the image is ready.  No timeout
    /// means waiting for as long as it takes.
    fn acquire_next_image(
        &self,
        timeout: Option<u128>,
        semaphore: Option<&Self::Semaphore>,
        fence: Option<&Self::Fence>,
    ) -> (acquisition: Result<Self::Acquisition, Error>)
        ensures
            acquisition == self.acquisition(
                timeout,
                match semaphore {
                    Some(s) => Some(s.native()),
                    None => None,
                },
                match fence {
                    Some(f) => Some(f.native()),
                    None => None,
                },
            ),
    ;

    /// The index of the image that was acquired, or the failure of the
    /// acquisition (the wait ran out, the surface is out of date, the device
    /// is lost) as the backend reports it.
    fn acquired(native: Result<u32, i32>) -> (index: Result<u32, Error>)
        ensures
            index == match native {
                Ok(i) => Ok::<u32, Error>(i),
                Err(code) => Err::<u32, Error>(Self::failure(code)),
            },
    ;
}

/// A pixel buffer.
pub trait Image: Sized {

}

/// A typed interpretation of an image.
pub trait ImageView: Object {
    type Context: Object;

    type Image: Image;

    /// What the native creation call is given.
    type Description;

    /// Whether the backend has image views.  Where it has none, creating one is
    /// refused as unsupported.
    spec fn supported() -> bool;

    /// Describes the native view to create of `image`.
    fn describe(image: &Self::Image, create_info: &ImageViewCreateInfo) -> Self::Description;

    /// Takes in the native view that was created in `context` of `image`, or
    /// reports why none was.
    fn new(
        objects: &mut Objects,
        context: &Self::Context,
        image: &Self::Image,
        native: Result<u64, i32>,
    ) -> (view: Result<Self, Error>)
        requires
            old(objects).wf(),
            belongs(context, old(objects)@),
        ensures
            final(objects).wf(),
            grown(old(objects)@, final(objects)@),
            view matches Ok(o) ==> belongs(&o, final(objects)@),
            if Self::supported() {
                entered(
                    old(objects)@,
                    final(objects)@,
                    ObjectKind::ImageView,
                    seq![context.record()],
                    created::<Self>(native),
                    entry(view),
                )
            } else {
                &&& final(objects)@ == old(objects)@
                &&& view matches Err(e)
                &&& e == match native {
                    Err(code) => Self::failure(code),
                    Ok(_) => Error::Unsupported,
                }
            },
    ;
}

/// A description of attachment slots and of the subpasses that use them.
pub trait RenderPass: Object {
    type Context: Object;

    /// What the native creation call is given.
    type Description;

    /// Whether the backend has render passes.  Where it has none, creating one is
    /// refused as unsupported.
    spec fn supported() -> bool;

    /// Describes the native render pass to create.
    fn describe(create_info: &RenderPassCreateInfo) -> Self::Description;

    /// Takes in the native render pass that was created in `context`, or
    /// reports why none was.
    fn new(
        objects: &mut Objects,
        context: &Self::Context,
        native: Result<u64, i32>,
    ) -> (pass: Result<Self, Error>)
        requires
            old(objects).wf(),
            belongs(context, old(objects)@),
        ensures
            final(objects).wf(),
            grown(old(objects)@, final(objects)@),
            pass matches Ok(o) ==> belongs(&o, final(objects)@),
            if Self::supported() {
                entered(
                    old(objects)@,
                    final(objects)@,
                    ObjectKind::RenderPass,
                    seq![context.record()],
                    created::<Self>(native),
                    entry(pass),
                )
            } else {
                &&& final(objects)@ == old(objects)@
                &&& pass matches Err(e)
                &&& e == match native {
                    Err(code) => Self::failure(code),
                    Ok(_) => Error::Unsupported,
                }
            },
    ;
}

/// The binding of image views to the attachment slots of a render pass.
pub trait Framebuffer: Object {
    type Context: Object;

    type RenderPass: Object;

    type ImageView: Object;

    /// What the native creation call is given.
    type Description;

    /// Whether the backend has framebuffers.  Where it has none, creating one is
    /// refused as unsupported.
    spec fn supported() -> bool;

    /// Describes the native framebuffer to create.
    fn describe(
        create_info: &FramebufferCreateInfo<Self::RenderPass, Self::ImageView>,
    ) -> Self::Description;

    /// Takes in the native framebuffer that was created in `context` for
    /// `render_pass`, or reports why none was.
    fn new(
        objects: &mut Objects,
        context: &Self::Context,
        render_pass: &Self::RenderPass,
        native: Result<u64, i32>,
    ) -> (framebuffer: Result<Self, Error>)
        requires
            old(objects).wf(),
            belongs(context, old(objects)@),
            belongs(render_pass, old(objects)@),
        ensures
            final(objects).wf(),
            grown(old(objects)@, final(objects)@),
            framebuffer matches Ok(o) ==> belongs(&o, final(objects)@),
            if Self::supported() {
                entered(
                    old(objects)@,
                    final(objects)@,
                    ObjectKind::Framebuffer,
                    seq![render_pass.record()],
                    created::<Self>(native),
                    entry(framebuffer),
                )
            } else {
                &&& final(objects)@ == old(objects)@
                &&& framebuffer matches Err(e)
                &&& e == match native {
                    Err(code) => Self::failure(code),
                    Ok(_) => Error::Unsupported,
                }
            },
    ;
}

/// The layout of the resources that a pipeline binds.
pub trait PipelineLayout: Object {
    type Context: Object;

    /// What the native creation call is given.
    type Description;

    /// Whether the backend has pipeline layouts.  Where it has none, creating one is
    /// refused as unsupported.
    spec fn supported() -> bool;

    /// Describes the native layout to create.
    fn describe(create_info: &PipelineLayoutCreateInfo) -> Self::Description;

    /// Takes in the native layout that was created in `context`, or reports
    /// why none was.
    fn new(
        objects: &mut Objects,
        context: &Self::Context,
        native: Result<u64, i32>,
    ) -> (layout: Result<Self, Error>)
        requires
            old(objects).wf(),
            belongs(context, old(objects)@),
        ensures
            final(objects).wf(),
            grown(old(objects)@, final(objects)@),
            layout matches Ok(o) ==> belongs(&o, final(objects)@),
            if Self::supported() {
                entered(
                    old(objects)@,
                    final(objects)@,
                    ObjectKind::PipelineLayout,
                    seq![context.record()],
                    created::<Self>(native),
                    entry(layout),
                )
            } else {
                &&& final(objects)@ == old(objects)@
                &&& layout matches Err(e)
                &&& e == match native {
                    Err(code) => Self::failure(code),
                    Ok(_) => Error::Unsupported,
                }
            },
    ;
}

/// Compiled code for one programmable stage.
pub trait Shader: Object {
    type Context: Object;

    /// What the native creation call is given.
    type Description;

    /// Describes the native shader to create from `code`.
    fn describe(code: ShaderCode) -> Self::Description;

    /// Takes in the native shader that was created in `context` from `code`,
    /// or reports why none was.
    fn from_code(
        objects: &mut Objects,
        context: &Self::Context,
        code: ShaderCode,
        native: Result<u64, i32>,
    ) -> (shader: Result<Self, Error>)
        requires
            old(objects).wf(),
            belongs(context, old(objects)@),
        ensures
            final(objects).wf(),
            grown(old(objects)@, final(objects)@),
            shader matches Ok(o) ==> belongs(&o, final(objects)@),
            entered(
                old(objects)@,
                final(objects)@,
                ObjectKind::Shader,
                seq![context.record()],
                created::<Self>(native),
                entry(shader),
            ),
    ;
}

/// The whole state with which primitives are drawn.
pub trait GraphicsPipeline: Object {
    type Context: Object;

    type Shader: Object;

    type PipelineLayout: Object;

    type RenderPass: Object;

    /// What the native creation call is given.
    type Description;

    /// The backend can describe the pipeline that `create_info` asks for: it is
    /// given what the backend needs, and asks for no more than the backend
    /// has.
    spec fn describable(
        create_info: &GraphicsPipelineCreateInfo<
            Self::Shader,
            Self::PipelineLayout,
            Self::RenderPass,
        >,
    ) -> bool;

    /// Whether the backend can describe the pipeline that `create_info` asks
    /// for.
    fn is_describable(
        create_info: &GraphicsPipelineCreateInfo<
            Self::Shader,
            Self::PipelineLayout,
            Self::RenderPass,
        >,
    ) -> (yes: bool)
        ensures
            yes == Self::describable(create_info),
    ;

    /// Describes the native pipeline to create.
    fn describe(
        create_info: &GraphicsPipelineCreateInfo<
            Self::Shader,
            Self::PipelineLayout,
            Self::RenderPass,
        >,
    ) -> Self::Description
        requires
            Self::describable(create_info),
    ;

    /// Takes in the native pipeline that was created in `context`, or reports
    /// why none was.
    fn new(
        objects: &mut Objects,
        context: &Self::Context,
        native: Result<u64, i32>,
    ) -> (pipeline: Result<Self, Error>)
        requires
            old(objects).wf(),
            belongs(context, old(objects)@),
        ensures
            final(objects).wf(),
            grown(old(objects)@, final(objects)@),
            pipeline matches Ok(o) ==> belongs(&o, final(objects)@),
            entered(
                old(objects)@,
                final(objects)@,
                ObjectKind::GraphicsPipeline,
                seq![context.record()],
                created::<Self>(native),
                entry(pipeline),
            ),
    ;
}

/// A primitive by which the host waits for the device.
pub trait Fence: Object {
    type Context: Object;

    /// What the native creation call is given.
    type Description;

    /// Describes the native fence to create.
    fn describe(create_info: &FenceCreateInfo) -> Self::Description;

    /// Takes in the native fence that was created in `context`, or reports why
    /// none was.
    fn new(
        objects: &mut Objects,
        context: &Self::Context,
        native: Result<u64, i32>,
    ) -> (fence: Result<Self, Error>)
        requires
            old(objects).wf(),
            belongs(context, old(objects)@),
        ensures
            final(objects).wf(),
            grown(old(objects)@, final(objects)@),
            fence matches Ok(o) ==> belongs(&o, final(objects)@),
            entered(
                old(objects)@,
                final(objects)@,
                ObjectKind::Fence,
                seq![context.record()],
                created::<Self>(native),
                entry(fence),
            ),
    ;
}

/// A primitive by which one queue operation waits for another.
pub trait Semaphore: Object {
    type Context: Object;

    /// What the native creation call is given.
    type Description;

    /// Whether the backend has semaphores.  Where it has none, creating one is
    /// refused as unsupported.
    spec fn supported() -> bool;

    /// Describes the native semaphore to create.
    fn describe(create_info: &SemaphoreCreateInfo) -> Self::Description;

    /// Takes in the native semaphore that was created in `context`, or reports
    /// why none was.
    fn new(
        objects: &mut Objects,
        context: &Self::Context,
        native: Result<u64, i32>,
    ) -> (semaphore: Result<Self, Error>)
        requires
            old(objects).wf(),
            belongs(context, old(objects)@),
        ensures
            final(objects).wf(),
            grown(old(objects)@, final(objects)@),
            semaphore matches Ok(o) ==> belongs(&o, final(objects)@),
            if Self::supported() {
                entered(
                    old(objects)@,
                    final(objects)@,
                    ObjectKind::Semaphore,
                    seq![context.record()],
                    created::<Self>(native),
                    entry(semaphore),
                )
            } else {
                &&& final(objects)@ == old(objects)@
                &&& semaphore matches Err(e)
                &&& e == match native {
                    Err(code) => Self::failure(code),
                    Ok(_) => Error::Unsupported,
                }
            },
    ;
}

} // verus!
