use arcaders::context::{Color, DrawCommand, Surface};

#[test]
fn a_new_surface_has_received_nothing() {
    let surface = Surface::new();
    assert!(surface.commands().is_empty());
}

#[test]
fn a_surface_keeps_its_calls_in_order() {
    let green = Color { r: 0, g: 255, b: 0 };
    let grey = Color { r: 9, g: 9, b: 9 };
    let mut surface = Surface::new();
    surface.clear();
    surface.set_clear_color(green);
    surface.set_clear_color(grey);
    surface.clear();
    assert_eq!(
        surface.commands(),
        &vec![
            DrawCommand::Clear,
            DrawCommand::SetClearColor(green),
            DrawCommand::SetClearColor(grey),
            DrawCommand::Clear,
        ]
    );
}

#[test]
fn taking_the_calls_empties_the_surface() {
    let white = Color { r: 255, g: 255, b: 255 };
    let mut surface = Surface::new();
    surface.set_clear_color(white);
    surface.clear();
    assert_eq!(
        surface.take_commands(),
        vec![DrawCommand::SetClearColor(white), DrawCommand::Clear]
    );
    assert!(surface.commands().is_empty());
    assert!(surface.take_commands().is_empty());

    surface.clear();
    assert_eq!(surface.commands(), &vec![DrawCommand::Clear]);
}
