use shared_prims::gui::Button;
use shared_prims::gui::Draw;
use shared_prims::gui::Screen;

struct SelectBox {
    width: u32,
    height: u32,
    options: Vec<String>,
}

impl Draw for SelectBox {
    fn draw(&self) {
        // code to actually draw a select box
        let _ = (self.width, self.height, self.options.len());
    }
}

#[test]
fn a_screen_runs_all_its_components() {
    let screen = Screen {
        components: vec![
            SelectBox {
                width: 75,
                height: 10,
                options: vec![
                    String::from("Yes"),
                    String::from("Maybe"),
                    String::from("No"),
                ],
            },
            SelectBox { width: 50, height: 10, options: Vec::new() },
        ],
    };
    screen.run();
}

#[test]
fn buttons_are_drawable() {
    let screen = Screen {
        components: vec![Button { width: 50, height: 10, label: String::from("OK") }],
    };
    screen.run();
    assert_eq!(screen.components[0].label, "OK");
}
