use scroll_rs::common::default_svg;
use scroll_rs::Behavior;

#[test]
fn default_icon_is_the_arrow_svg() {
    let markup = default_svg();
    assert_eq!(
        markup,
        "<svg xmlns=\"http://www.w3.org/2000/svg\" fill=\"none\" viewBox=\"0 0 24 24\" \
         stroke=\"currentColor\" style=\"width: 16px; height: 16px;\">\
         <path stroke-linecap=\"round\" stroke-linejoin=\"round\" stroke-width=\"2\" \
         d=\"M5 10l7-7m0 0l7 7m-7-7v18\"/></svg>"
    );
}

#[test]
fn behaviors_are_distinct() {
    assert!(Behavior::Auto == Behavior::Auto);
    assert!(Behavior::Auto != Behavior::Instant);
    assert!(Behavior::Instant != Behavior::Smooth);
    assert!(Behavior::Smooth == Behavior::Smooth);
}
