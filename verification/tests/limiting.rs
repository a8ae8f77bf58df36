use pixel_viewport::limit::{sprite_count_limiter, PixelLimPlugin, SpriteCount, Visibility};

fn visible(v: &[Visibility]) -> usize {
    v.iter().filter(|x| **x == Visibility::Inherited).count()
}

#[test]
fn first_sprites_stay_visible_in_order() {
    let sc = SpriteCount { count: 3, random: false };
    let v = sprite_count_limiter(5, &sc);
    assert_eq!(
        v,
        vec![
            Visibility::Inherited,
            Visibility::Inherited,
            Visibility::Inherited,
            Visibility::Hidden,
            Visibility::Hidden,
        ]
    );
}

#[test]
fn random_mode_keeps_exactly_the_budget_visible() {
    let sc = SpriteCount { count: 10, random: true };
    let v = sprite_count_limiter(50, &sc);
    assert_eq!(v.len(), 50);
    assert_eq!(visible(&v), 10);
}

#[test]
fn budget_larger_than_sprite_count_hides_nothing() {
    for random in [false, true] {
        let sc = SpriteCount { count: 32, random };
        let v = sprite_count_limiter(7, &sc);
        assert_eq!(v.len(), 7);
        assert_eq!(visible(&v), 7);
    }
}

#[test]
fn no_sprites_is_fine() {
    let sc = SpriteCount { count: 4, random: true };
    let v = sprite_count_limiter(0, &sc);
    assert!(v.is_empty());
}

#[test]
fn zero_count_disables_the_plugin() {
    let p = PixelLimPlugin::new(0, true);
    assert_eq!(p.build(), None);
    let q = PixelLimPlugin::new(8, true);
    assert_eq!(q.build(), Some(SpriteCount { count: 8, random: true }));
}

#[test]
fn default_plugin_budget() {
    let p = PixelLimPlugin::default();
    assert_eq!(p.sprite_count, 32);
    assert!(!p.random);
}
