use mc_app::chemins::{divergence, divergence_constatee, journaliser_la_divergence};
use mc_app::commands::news::{after_fetch, image_step, ImageStep};
use mc_app::paths::{log_the_mismatch, mismatch, mismatch_message};
use mc_app::webkit::{should_disable_dmabuf, VARIABLE};

#[test]
fn dmabuf_is_disabled_only_under_nvidia_and_only_if_nobody_chose() {
    assert!(should_disable_dmabuf(true, false));
    assert!(!should_disable_dmabuf(true, true));
    assert!(!should_disable_dmabuf(false, false));
    assert!(!should_disable_dmabuf(false, true));
    assert_eq!(VARIABLE, "WEBKIT_DISABLE_DMABUF_RENDERER");
}

#[test]
fn a_mismatch_is_logged_with_both_places() {
    let message = mismatch_message("/a/data", "/b/data");
    assert_eq!(message, "Tauri stores data under /a/data where the environment says /b/data");
    assert_eq!(
        log_the_mismatch(&Some(message)),
        Some(
            "Tauri stores data under /a/data where the environment says /b/data — the two resolvers do not agree; the crates follow Tauri"
                .to_string()
        )
    );
    assert_eq!(log_the_mismatch(&None), None);
}

#[test]
fn une_divergence_se_journalise_avec_les_deux_emplacements() {
    let message = divergence("/a", "/b");
    assert_eq!(message, "Tauri range les données sous /a là où l'environnement dit /b");
    assert!(journaliser_la_divergence(&Some(message))
        .expect("une ligne")
        .ends_with("les crates suivent Tauri"));
    assert_eq!(journaliser_la_divergence(&None), None);
}

#[test]
fn images_are_fetched_within_the_limit_and_a_failure_keeps_the_post() {
    assert_eq!(image_step(false, 0, 3), ImageStep::Nothing);
    assert_eq!(image_step(true, 0, 3), ImageStep::Fetch);
    assert_eq!(image_step(true, 3, 3), ImageStep::Drop);
    assert_eq!(after_fetch(1, 3, Some("data:x".to_string())), (Some("data:x".to_string()), 2));
    assert_eq!(after_fetch(1, 3, None), (None, 1));
}

#[test]
fn a_mismatch_is_recorded_only_when_the_directories_differ() {
    assert_eq!(mismatch("/a/data", "/a/data"), None);
    assert_eq!(mismatch("/a/data/", "/a/data"), None);
    assert_eq!(
        mismatch("/a/data", "/b/data"),
        Some("Tauri stores data under /a/data where the environment says /b/data".to_string())
    );
    assert_eq!(divergence_constatee("/a", "/a"), None);
    assert!(divergence_constatee("/a", "/b").is_some());
}
