use sw3d::render::setup::check_validation_layer_support;
use sw3d::render::setup::first_composite_alpha;
use sw3d::render::setup::plan_swapchain;
use sw3d::render::setup::required_validation_layers;
use sw3d::render::setup::select_physical_device;
use sw3d::render::setup::select_queue_family;
use sw3d::render::setup::validation_layers;
use sw3d::render::setup::Capabilities;
use sw3d::render::setup::CompositeAlpha;
use sw3d::render::setup::PresentMode;
use sw3d::render::setup::QueueFamily;
use sw3d::render::setup::SupportedCompositeAlpha;
use sw3d::render::Extent;
use sw3d::render::InitError;

fn names(list: &[&str]) -> Vec<String> {
    list.iter().map(|name| name.to_string()).collect()
}

fn alphas(opaque: bool, pre: bool, post: bool, inherit: bool) -> SupportedCompositeAlpha {
    SupportedCompositeAlpha { opaque, pre_multiplied: pre, post_multiplied: post, inherit }
}

fn caps(extent: Option<Extent>, alpha: SupportedCompositeAlpha, formats: usize) -> Capabilities {
    Capabilities {
        min_image_count: 2,
        current_extent: extent,
        supported_composite_alpha: alpha,
        format_count: formats,
    }
}

#[test]
fn validation_layer_is_found_among_others() {
    let required = names(&["VK_LAYER_LUNARG_standard_validation"]);
    let available = names(&["VK_LAYER_A", "VK_LAYER_LUNARG_standard_validation", "VK_LAYER_B"]);
    assert!(check_validation_layer_support(&required, &available));
}

#[test]
fn validation_layer_is_missed() {
    let required = names(&["VK_LAYER_LUNARG_standard_validation"]);
    assert!(!check_validation_layer_support(&required, &names(&["VK_LAYER_A", "VK_LAYER_B"])));
    assert!(!check_validation_layer_support(&required, &names(&[])));
    assert!(!check_validation_layer_support(
        &required,
        &names(&["VK_LAYER_LUNARG_standard_validatio"])
    ));
}

#[test]
fn every_required_layer_must_be_there() {
    let available = names(&["a", "b", "c"]);
    assert!(check_validation_layer_support(&names(&["c", "a"]), &available));
    assert!(!check_validation_layer_support(&names(&["c", "d"]), &available));
    assert!(!check_validation_layer_support(&names(&["d", "a"]), &available));
    assert!(check_validation_layer_support(&names(&[]), &available));
    assert!(check_validation_layer_support(&names(&[]), &names(&[])));
}

#[test]
fn validation_layers_are_asked_for_only_when_enabled_and_there() {
    let required = names(&["VK_LAYER_LUNARG_standard_validation"]);
    let with = names(&["VK_LAYER_LUNARG_standard_validation", "x"]);
    let without = names(&["x"]);
    assert_eq!(validation_layers(true, required.clone(), &with), required);
    assert_eq!(validation_layers(false, required.clone(), &with), names(&[]));
    assert_eq!(validation_layers(true, required.clone(), &without), names(&[]));
    assert_eq!(validation_layers(false, required.clone(), &without), names(&[]));
}

#[test]
fn the_first_device_is_taken() {
    assert_eq!(select_physical_device(0), Err(InitError::NoDevice));
    assert_eq!(select_physical_device(1), Ok(0));
    assert_eq!(select_physical_device(4), Ok(0));
}

#[test]
fn the_first_family_that_draws_and_presents_is_taken() {
    let families = vec![
        QueueFamily { graphics: false, presents: true },
        QueueFamily { graphics: true, presents: false },
        QueueFamily { graphics: true, presents: true },
        QueueFamily { graphics: true, presents: true },
    ];
    assert_eq!(select_queue_family(&families), Ok(2));
    let first = vec![QueueFamily { graphics: true, presents: true }];
    assert_eq!(select_queue_family(&first), Ok(0));
}

#[test]
fn no_family_that_draws_and_presents() {
    let families = vec![
        QueueFamily { graphics: false, presents: true },
        QueueFamily { graphics: true, presents: false },
        QueueFamily { graphics: false, presents: false },
    ];
    assert_eq!(select_queue_family(&families), Err(InitError::NoGraphicsQueue));
    assert_eq!(select_queue_family(&Vec::new()), Err(InitError::NoGraphicsQueue));
}

#[test]
fn composite_alpha_goes_by_the_fixed_order() {
    assert_eq!(first_composite_alpha(alphas(true, true, true, true)), Some(CompositeAlpha::Opaque));
    assert_eq!(
        first_composite_alpha(alphas(false, true, true, true)),
        Some(CompositeAlpha::PreMultiplied)
    );
    assert_eq!(
        first_composite_alpha(alphas(false, false, true, true)),
        Some(CompositeAlpha::PostMultiplied)
    );
    assert_eq!(
        first_composite_alpha(alphas(false, false, false, true)),
        Some(CompositeAlpha::Inherit)
    );
    assert_eq!(first_composite_alpha(alphas(false, false, false, false)), None);
}

#[test]
fn swapchain_takes_the_size_of_the_surface() {
    let surface = Extent { width: 1024, height: 768 };
    let plan = plan_swapchain(&caps(Some(surface), alphas(true, false, false, true), 3), 800, 800);
    let plan = plan.ok().unwrap();
    assert_eq!(plan.dimensions, surface);
    assert_eq!(plan.image_count, 2);
    assert_eq!(plan.format, 0);
    assert_eq!(plan.layers, 1);
    assert_eq!(plan.alpha, CompositeAlpha::Opaque);
    assert_eq!(plan.present_mode, PresentMode::Fifo);
    assert!(plan.clipped);
}

#[test]
fn swapchain_takes_the_size_asked_for_where_the_surface_has_none() {
    let plan = plan_swapchain(&caps(None, alphas(false, false, true, false), 1), 800, 600);
    let plan = plan.ok().unwrap();
    assert_eq!(plan.dimensions, Extent { width: 800, height: 600 });
    assert_eq!(plan.alpha, CompositeAlpha::PostMultiplied);
}

#[test]
fn swapchain_needs_a_way_of_compositing() {
    let plan = plan_swapchain(&caps(None, alphas(false, false, false, false), 1), 800, 600);
    assert_eq!(plan, Err(InitError::NoCompositeAlpha));
    let neither = plan_swapchain(&caps(None, alphas(false, false, false, false), 0), 800, 600);
    assert_eq!(neither, Err(InitError::NoCompositeAlpha));
}

#[test]
fn swapchain_needs_a_format() {
    let plan = plan_swapchain(&caps(None, alphas(true, false, false, false), 0), 800, 600);
    assert_eq!(plan, Err(InitError::NoSurfaceFormat));
}

#[test]
fn the_standard_validation_layer_is_required() {
    assert_eq!(required_validation_layers(), names(&["VK_LAYER_LUNARG_standard_validation"]));
    let available = names(&["x", "VK_LAYER_LUNARG_standard_validation"]);
    assert!(check_validation_layer_support(&required_validation_layers(), &available));
    assert_eq!(
        validation_layers(true, required_validation_layers(), &available),
        names(&["VK_LAYER_LUNARG_standard_validation"])
    );
}

#[test]
fn composite_alpha_agrees_with_vulkano() {
    for mask in 0..16u32 {
        let ours = alphas(mask & 1 != 0, mask & 2 != 0, mask & 4 != 0, mask & 8 != 0);
        let theirs = vulkano::swapchain::SupportedCompositeAlpha {
            opaque: ours.opaque,
            pre_multiplied: ours.pre_multiplied,
            post_multiplied: ours.post_multiplied,
            inherit: ours.inherit,
        };
        let expected = theirs.iter().next().map(|alpha| match alpha {
            vulkano::swapchain::CompositeAlpha::Opaque => CompositeAlpha::Opaque,
            vulkano::swapchain::CompositeAlpha::PreMultiplied => CompositeAlpha::PreMultiplied,
            vulkano::swapchain::CompositeAlpha::PostMultiplied => CompositeAlpha::PostMultiplied,
            vulkano::swapchain::CompositeAlpha::Inherit => CompositeAlpha::Inherit,
        });
        assert_eq!(first_composite_alpha(ours), expected);
    }
}
