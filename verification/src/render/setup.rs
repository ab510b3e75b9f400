//! The decisions taken while a context is set up: which validation layers to
//! ask for, which device and queue family to use, and how to make the
//! swapchain. The caller asks the device what it offers and hands the answers
//! in as plain values.

use crate::render::Extent;
use crate::render::InitError;
use vstd::prelude::*;

verus! {

/// What a queue family of a physical device can do.
#[derive(Clone, Copy, Debug, PartialEq, Eq, Structural)]
pub struct QueueFamily {
    /// The family takes graphics commands.
    pub graphics: bool,
    /// The family can present to the surface.
    pub presents: bool,
}

impl QueueFamily {
    /// The family can both draw and present.
    pub open spec fn usable(self) -> bool {
        self.graphics && self.presents
    }
}

/// How a surface is composited with what lies behind it.
#[derive(Clone, Copy, Debug, PartialEq, Eq, Structural)]
pub enum CompositeAlpha {
    Opaque,
    PreMultiplied,
    PostMultiplied,
    Inherit,
}

/// The ways of compositing that a surface supports.
#[derive(Clone, Copy, Debug, PartialEq, Eq, Structural)]
pub struct SupportedCompositeAlpha {
    pub opaque: bool,
    pub pre_multiplied: bool,
    pub post_multiplied: bool,
    pub inherit: bool,
}

/// How finished images reach the screen.
#[derive(Clone, Copy, Debug, PartialEq, Eq, Structural)]
pub enum PresentMode {
    Immediate,
    Mailbox,
    /// Images queue up and are shown one per refresh of the screen.
    Fifo,
    Relaxed,
}

/// What a surface offers to a swapchain.
#[derive(Clone, Copy, Debug, PartialEq, Eq, Structural)]
pub struct Capabilities {
    /// The least number of images that a swapchain must have.
    pub min_image_count: u32,
    /// The size of the surface, where the surface has one of its own.
    pub current_extent: Option<Extent>,
    /// The ways of compositing that the surface supports.
    pub supported_composite_alpha: SupportedCompositeAlpha,
    /// The number of formats that the surface supports, in the device's order.
    pub format_count: usize,
}

/// How the swapchain is to be made.
#[derive(Clone, Copy, Debug, PartialEq, Eq, Structural)]
pub struct SwapchainPlan {
    /// The number of images to ask for.
    pub image_count: u32,
    /// The place of the format in the list of supported formats.
    pub format: usize,
    /// Width and height of the images.
    pub dimensions: Extent,
    /// The number of layers of each image.
    pub layers: u32,
    /// How the surface is composited.
    pub alpha: CompositeAlpha,
    /// How finished images reach the screen.
    pub present_mode: PresentMode,
    /// Whether pixels that cannot be seen may be left undrawn.
    pub clipped: bool,
}

impl CompositeAlpha {
    /// The place of this way of compositing in the order in which a surface is
    /// asked about them: opaque, pre-multiplied, post-multiplied, inherit.
    pub open spec fn rank(self) -> int {
        match self {
            CompositeAlpha::Opaque => 0,
            CompositeAlpha::PreMultiplied => 1,
            CompositeAlpha::PostMultiplied => 2,
            CompositeAlpha::Inherit => 3,
        }
    }
}

impl SupportedCompositeAlpha {
    /// Whether the surface supports `alpha`.
    pub open spec fn supports(self, alpha: CompositeAlpha) -> bool {
        match alpha {
            CompositeAlpha::Opaque => self.opaque,
            CompositeAlpha::PreMultiplied => self.pre_multiplied,
            CompositeAlpha::PostMultiplied => self.post_multiplied,
            CompositeAlpha::Inherit => self.inherit,
        }
    }

    /// Whether the surface supports no way of compositing at all.
    pub open spec fn supports_none(self) -> bool {
        forall|alpha: CompositeAlpha| !self.supports(alpha)
    }
}

/// `chosen` is the first way of compositing that `supported` has, or nothing
/// where it has none.
pub open spec fn is_first_alpha(supported: SupportedCompositeAlpha, chosen: Option<CompositeAlpha>) -> bool {
    match chosen {
        Some(alpha) => {
            &&& supported.supports(alpha)
            &&& forall|other: CompositeAlpha|
                other.rank() < alpha.rank() ==> !supported.supports(other)
        },
        None => supported.supports_none(),
    }
}

/// There is exactly one first way of compositing: two choices that are both
/// first are the same.
pub proof fn lemma_first_alpha_unique(
    supported: SupportedCompositeAlpha,
    a: Option<CompositeAlpha>,
    b: Option<CompositeAlpha>,
)
    requires
        is_first_alpha(supported, a),
        is_first_alpha(supported, b),
    ensures
        a == b,
{
    match (a, b) {
        (Some(x), Some(y)) => {
            assert(!(x.rank() < y.rank()));
            assert(!(y.rank() < x.rank()));
        },
        (Some(x), None) => {
            assert(!supported.supports(x));
        },
        (None, Some(y)) => {
            assert(!supported.supports(y));
        },
        (None, None) => {},
    }
}

/// The size of the swapchain's images: that of the surface where it has one,
/// else the size asked for.
pub open spec fn extent_of(current: Option<Extent>, width: u32, height: u32) -> Extent {
    match current {
        Some(extent) => extent,
        None => Extent { width, height },
    }
}

/// `name` is one of `available`.
pub open spec fn offered(available: Seq<String>, name: Seq<char>) -> bool {
    exists|j: int| 0 <= j < available.len() && (#[trigger] available[j])@ == name
}

/// Every one of `required` is one of `available`.
pub open spec fn all_offered(required: Seq<String>, available: Seq<String>) -> bool {
    forall|i: int| 0 <= i < required.len() ==> offered(available, (#[trigger] required[i])@)
}

/// The validation layers that a context asks for where validation is wanted:
/// the standard validation layer, and no other.
pub fn required_validation_layers() -> (layers: Vec<String>)
    ensures
        layers@.len() == 1,
        layers@[0]@ == "VK_LAYER_LUNARG_standard_validation"@,
{
    let mut layers: Vec<String> = Vec::new();
    layers.push("VK_LAYER_LUNARG_standard_validation".to_owned());
    layers
}

/// Whether the instance offers every validation layer in `required`.
pub fn check_validation_layer_support(required: &Vec<String>, available: &Vec<String>) -> (supported:
    bool)
    ensures
        supported == all_offered(required@, available@),
{
    let mut i: usize = 0;
    while i < required.len()
        invariant
            i <= required@.len(),
            forall|k: int| 0 <= k < i ==> offered(available@, (#[trigger] required@[k])@),
        decreases required@.len() - i,
    {
        let mut found = false;
        let mut j: usize = 0;
        while j < available.len() && !found
            invariant
                i < required@.len(),
                j <= available@.len(),
                found ==> offered(available@, required@[i as int]@),
                !found ==> forall|k: int| 0 <= k < j ==> (#[trigger] available@[k])@ != required@[i as int]@,
            decreases available@.len() - j + if found { 0int } else { 1int },
        {
            if available[j] == required[i] {
                found = true;
            } else {
                j = j + 1;
            }
        }
        if !found {
            assert(!offered(available@, required@[i as int]@));
            return false;
        }
        i = i + 1;
    }
    true
}

/// The validation layers to make the instance with: those in `required` where
/// validation is wanted and the instance offers them all, else none.
pub fn validation_layers(enabled: bool, required: Vec<String>, available: &Vec<String>) -> (layers:
    Vec<String>)
    ensures
        enabled && all_offered(required@, available@) ==> layers@ == required@,
        !(enabled && all_offered(required@, available@)) ==> layers@.len() == 0,
{
    if enabled && check_validation_layer_support(&required, available) {
        required
    } else {
        Vec::new()
    }
}

/// The physical device to use among `count` that were found: the first.
pub fn select_physical_device(count: usize) -> (chosen: Result<usize, InitError>)
    ensures
        count == 0 ==> chosen == Err::<usize, InitError>(InitError::NoDevice),
        count > 0 ==> chosen == Ok::<usize, InitError>(0),
{
    if count == 0 {
        Err(InitError::NoDevice)
    } else {
        Ok(0)
    }
}

/// The queue family to use: the first that can both draw and present.
pub fn select_queue_family(families: &Vec<QueueFamily>) -> (chosen: Result<usize, InitError>)
    ensures
        match chosen {
            Ok(index) => {
                &&& index < families@.len()
                &&& families@[index as int].usable()
                &&& forall|j: int| 0 <= j < index ==> !(#[trigger] families@[j]).usable()
            },
            Err(error) => {
                &&& error == InitError::NoGraphicsQueue
                &&& forall|j: int| 0 <= j < families@.len() ==> !(#[trigger] families@[j]).usable()
            },
        },
{
    let mut index: usize = 0;
    while index < families.len()
        invariant
            index <= families@.len(),
            forall|j: int| 0 <= j < index ==> !(#[trigger] families@[j]).usable(),
        decreases families@.len() - index,
    {
        if families[index].graphics && families[index].presents {
            return Ok(index);
        }
        index = index + 1;
    }
    Err(InitError::NoGraphicsQueue)
}

/// The first supported way of compositing.
pub fn first_composite_alpha(supported: SupportedCompositeAlpha) -> (alpha: Option<CompositeAlpha>)
    ensures
        is_first_alpha(supported, alpha),
{
    if supported.opaque {
        Some(CompositeAlpha::Opaque)
    } else if supported.pre_multiplied {
        Some(CompositeAlpha::PreMultiplied)
    } else if supported.post_multiplied {
        Some(CompositeAlpha::PostMultiplied)
    } else if supported.inherit {
        Some(CompositeAlpha::Inherit)
    } else {
        None
    }
}

/// The swapchain for a window of `width` by `height` pixels on a surface that
/// offers `caps`: the least number of images, the first supported format, the
/// surface's own size where it has one, one layer, the first supported way of
/// compositing, presentation in step with the screen, clipped. Fails where the
/// surface supports no way of compositing, and else where it supports no
/// format.
pub fn plan_swapchain(caps: &Capabilities, width: u32, height: u32) -> (plan: Result<
    SwapchainPlan,
    InitError,
>)
    ensures
        caps.supported_composite_alpha.supports_none() ==> plan == Err::<SwapchainPlan, InitError>(
            InitError::NoCompositeAlpha,
        ),
        !caps.supported_composite_alpha.supports_none() && caps.format_count == 0 ==> plan == Err::<
            SwapchainPlan,
            InitError,
        >(InitError::NoSurfaceFormat),
        !caps.supported_composite_alpha.supports_none() && caps.format_count > 0 ==> {
            &&& plan is Ok
            &&& plan->Ok_0.image_count == caps.min_image_count
            &&& plan->Ok_0.format == 0
            &&& plan->Ok_0.dimensions == extent_of(caps.current_extent, width, height)
            &&& plan->Ok_0.layers == 1
            &&& is_first_alpha(caps.supported_composite_alpha, Some(plan->Ok_0.alpha))
            &&& plan->Ok_0.present_mode == PresentMode::Fifo
            &&& plan->Ok_0.clipped
        },
{
    let alpha = match first_composite_alpha(caps.supported_composite_alpha) {
        Some(alpha) => {
            assert(caps.supported_composite_alpha.supports(alpha));
            alpha
        },
        None => {
            return Err(InitError::NoCompositeAlpha);
        },
    };
    if caps.format_count == 0 {
        return Err(InitError::NoSurfaceFormat);
    }
    let dimensions = match caps.current_extent {
        Some(extent) => extent,
        None => Extent { width, height },
    };
    Ok(
        SwapchainPlan {
            image_count: caps.min_image_count,
            format: 0,
            dimensions,
            layers: 1,
            alpha,
            present_mode: PresentMode::Fifo,
            clipped: true,
        },
    )
}

} // verus!
