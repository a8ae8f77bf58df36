use pixel_viewport::layers::PixelLayer;

#[test]
fn background_layers_use_their_value() {
    assert_eq!(PixelLayer::Background(0).as_z_coordinate(), 0);
    assert_eq!(PixelLayer::Background(5).as_z_coordinate(), 5);
    assert_eq!(PixelLayer::Background(255).as_z_coordinate(), 255);
}

#[test]
fn foreground_layers_sit_above_the_background_band() {
    assert_eq!(PixelLayer::Foreground(0).as_z_coordinate(), 255);
    assert_eq!(PixelLayer::Foreground(1).as_z_coordinate(), 256);
    assert_eq!(PixelLayer::Foreground(255).as_z_coordinate(), 510);
}
