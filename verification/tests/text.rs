use knukki::text::{count_matching, distinct_indices, quad_element_indices};
use knukki::{
    CharTypeEvent, Color, DummyComponent, FlatColorComponent, FontHandle, HorizontalTextAlignment,
    SimpleFlatColorComponent, SimpleTextComponent, TextBackgroundFillMode, TextStyle,
    VerticalTextAlignment,
};

#[test]
fn test_quad_indices() {
    assert_eq!(Vec::<u32>::new(), quad_element_indices(0));
    assert_eq!(vec![0, 1, 2, 2, 3, 0, 4, 5, 6, 6, 7, 4], quad_element_indices(2));
}

#[test]
fn test_distinct_and_count() {
    let indices = vec![3u16, 1, 3, 3, 2, 1];
    assert_eq!(vec![3, 1, 2], distinct_indices(&indices));
    assert_eq!(3, count_matching(&indices, 3));
    assert_eq!(2, count_matching(&indices, 1));
    assert_eq!(0, count_matching(&indices, 9));
}

#[test]
fn test_color() {
    let c = Color::rgb(1, 2, 3);
    assert_eq!((1, 2, 3, 255), (c.get_red_int(), c.get_green_int(), c.get_blue_int(), c.get_alpha_int()));
    let d = Color::rgba(4, 5, 6, 7);
    assert_eq!((4, 5, 6, 7), (d.get_red_int(), d.get_green_int(), d.get_blue_int(), d.get_alpha_int()));
    assert_ne!(c, d);
    assert_eq!(Color::rgba(1, 2, 3, 255), c);
}

#[test]
fn test_simple_components() {
    let color = Color::rgb(10, 20, 30);
    assert_eq!(color, FlatColorComponent::new(color).get_color());
    assert_eq!(color, SimpleFlatColorComponent::new(color).get_color());
    let _dummy = DummyComponent {};
    let style = TextStyle {
        font_id: None,
        text_color: color,
        background_color: Color::rgb(0, 0, 0),
        background_fill_mode: TextBackgroundFillMode::DoNot,
    };
    let text = SimpleTextComponent::new(
        "Hello".to_string(),
        HorizontalTextAlignment::Center,
        VerticalTextAlignment::Top,
        style.clone(),
    );
    assert_eq!("Hello", text.get_text());
    assert_eq!(HorizontalTextAlignment::Center, text.get_horizontal_alignment());
    assert_eq!(VerticalTextAlignment::Top, text.get_vertical_alignment());
    assert_eq!(&style, text.get_style());
    assert_eq!(3, FontHandle::new(3).get_index());
    assert_eq!("a", CharTypeEvent::new("a".to_string()).get_text());
}
