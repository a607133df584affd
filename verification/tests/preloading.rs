use j3pic::decode::{ImageDecodeCoordinator, ImagePreloadRequest};
use j3pic::export::SupportedImageFormat;
use j3pic::folder::ImageFolder;
use j3pic::geometry::ViewportSize;
use j3pic::loaded::{ImageMetadata, LoadedImage};
use j3pic::memory::ImageMemoryPolicy;
use j3pic::pixels::Rgba8Image;
use j3pic::preload_cache::NavigationPreloadCache;
use j3pic::preloading::{
    is_navigation_preload_target, navigation_preload_paths, navigation_preload_requests,
    store_preloaded_navigation_image,
};
use j3pic::settings::{AnimationTimingSettings, NavigationSettings};
use j3pic::viewer::{DecodeApplyOutcome, ImageDecodePurpose};

fn loaded(path: &str) -> LoadedImage {
    LoadedImage::new(
        Rgba8Image::new(2, 1, vec![0u8; 8]),
        ImageMetadata::new(path.to_owned(), 8, SupportedImageFormat::Png),
    )
}

fn folder() -> ImageFolder {
    ImageFolder::from_paths("b.png", vec!["a.png".to_owned(), "b.png".to_owned(), "c.png".to_owned()])
}

#[test]
fn navigation_preload_requests_select_adjacent_folder_images() {
    let coordinator = ImageDecodeCoordinator::new();
    let cache = NavigationPreloadCache::new();
    let requests = navigation_preload_requests(
        &coordinator,
        Some("b.png"),
        &folder(),
        NavigationSettings::defaults(),
        &cache,
        ViewportSize::from_client_size(800, 600),
        ImageMemoryPolicy::defaults(),
        AnimationTimingSettings::defaults(),
    );
    let paths: Vec<&str> = requests.iter().map(|request| request.path()).collect();
    assert_eq!(paths, vec!["a.png", "c.png"]);
    assert!(requests.iter().all(|request| request.generation() == coordinator.generation()));
}

#[test]
fn no_preloads_while_decoding_or_without_an_image() {
    let viewport = ViewportSize::from_client_size(800, 600);
    let policy = ImageMemoryPolicy::defaults();
    let timing = AnimationTimingSettings::defaults();
    let cache = NavigationPreloadCache::new();
    let settings = NavigationSettings::defaults();
    assert!(navigation_preload_paths(true, None, &folder(), settings, &cache, viewport, policy, timing).is_empty());
    assert!(navigation_preload_paths(false, Some("b.png"), &folder(), settings, &cache, viewport, policy, timing)
        .is_empty());

    let mut coordinator = ImageDecodeCoordinator::new();
    coordinator.begin_initial(
        "b.png".to_owned(),
        viewport,
        policy,
        timing,
        ImageDecodePurpose::OpenImage,
        None,
    );
    let requests =
        navigation_preload_requests(&coordinator, Some("b.png"), &folder(), settings, &cache, viewport, policy, timing);
    assert!(requests.is_empty());
}

#[test]
fn preloaded_and_duplicate_neighbours_are_not_requested_again() {
    let viewport = ViewportSize::from_client_size(800, 600);
    let policy = ImageMemoryPolicy::defaults();
    let timing = AnimationTimingSettings::defaults();
    let settings = NavigationSettings::defaults();
    let mut cache = NavigationPreloadCache::new();
    cache.store(1, loaded("a.png"), viewport, policy, timing, 1);
    let paths = navigation_preload_paths(true, Some("b.png"), &folder(), settings, &cache, viewport, policy, timing);
    assert_eq!(paths, vec!["c.png".to_owned()]);

    let two = ImageFolder::from_paths("a.png", vec!["a.png".to_owned(), "b.png".to_owned()]);
    let empty = NavigationPreloadCache::new();
    let paths = navigation_preload_paths(true, Some("a.png"), &two, settings, &empty, viewport, policy, timing);
    assert_eq!(paths, vec!["b.png".to_owned()]);

    let mut no_wrap = NavigationSettings::defaults();
    no_wrap.set_wrap_navigation(false);
    let paths = navigation_preload_paths(true, Some("a.png"), &two, no_wrap, &empty, viewport, policy, timing);
    assert_eq!(paths, vec!["b.png".to_owned()]);
}

#[test]
fn preload_targets_are_the_two_neighbours() {
    let settings = NavigationSettings::defaults();
    assert!(is_navigation_preload_target(&folder(), settings, "a.png"));
    assert!(is_navigation_preload_target(&folder(), settings, "c.png"));
    assert!(!is_navigation_preload_target(&folder(), settings, "b.png"));
    assert!(!is_navigation_preload_target(&folder(), settings, "d.png"));
}

#[test]
fn finished_preloads_are_kept_only_while_still_wanted() {
    let viewport = ViewportSize::from_client_size(800, 600);
    let policy = ImageMemoryPolicy::defaults();
    let timing = AnimationTimingSettings::defaults();
    let settings = NavigationSettings::defaults();
    let folder = folder();
    let mut coordinator = ImageDecodeCoordinator::new();
    let mut cache = NavigationPreloadCache::new();

    let request = ImagePreloadRequest::new(coordinator.generation(), "c.png".to_owned(), viewport, policy, timing);
    let wrong_image =
        store_preloaded_navigation_image(&mut cache, &coordinator, &folder, settings, viewport, policy, timing, &request, 9, loaded("a.png"), 1);
    assert_eq!(wrong_image, DecodeApplyOutcome::Stale);
    let other_viewport = store_preloaded_navigation_image(
        &mut cache,
        &coordinator,
        &folder,
        settings,
        ViewportSize::from_client_size(640, 480),
        policy,
        timing,
        &request,
        9,
        loaded("c.png"),
        1,
    );
    assert_eq!(other_viewport, DecodeApplyOutcome::Stale);
    assert_eq!(cache.len(), 0);

    let applied =
        store_preloaded_navigation_image(&mut cache, &coordinator, &folder, settings, viewport, policy, timing, &request, 9, loaded("c.png"), 1);
    assert_eq!(applied, DecodeApplyOutcome::Applied);
    assert_eq!(cache.len(), 1);
    assert!(cache.has_current("c.png", viewport, policy, timing));

    let not_neighbour = ImagePreloadRequest::new(coordinator.generation(), "b.png".to_owned(), viewport, policy, timing);
    let outcome =
        store_preloaded_navigation_image(&mut cache, &coordinator, &folder, settings, viewport, policy, timing, &not_neighbour, 4, loaded("b.png"), 2);
    assert_eq!(outcome, DecodeApplyOutcome::Stale);

    coordinator.begin_initial("a.png".to_owned(), viewport, policy, timing, ImageDecodePurpose::OpenImage, None);
    let stale =
        store_preloaded_navigation_image(&mut cache, &coordinator, &folder, settings, viewport, policy, timing, &request, 9, loaded("c.png"), 3);
    assert_eq!(stale, DecodeApplyOutcome::Stale);
    assert_eq!(cache.len(), 1);
}
