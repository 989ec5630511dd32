use whitted::color::{add_color, average_color, compose_color, Color};

#[test]
fn compose_full_albedo_keeps_color() {
    let c = Color::new(12, 200, 255);
    assert_eq!(compose_color(Color::new(255, 255, 255), c), c);
}

#[test]
fn compose_black_albedo_absorbs() {
    let c = Color::new(12, 200, 255);
    assert_eq!(compose_color(Color::black(), c), Color::black());
}

#[test]
fn compose_rounds_to_nearest() {
    // 128/255*200 = 100.39, 100/255*3 = 1.18, 200/255*255 = 200, 1/255*128 = 0.502
    assert_eq!(
        compose_color(Color::new(128, 100, 200), Color::new(200, 3, 255)),
        Color::new(100, 1, 200)
    );
    assert_eq!(compose_color(Color::new(1, 1, 1), Color::new(128, 127, 0)), Color::new(1, 0, 0));
}

#[test]
fn add_sums_channels() {
    assert_eq!(
        add_color(Color::new(1, 2, 3), Color::new(10, 20, 252)),
        Color::new(11, 22, 255)
    );
}

#[test]
fn average_truncates() {
    let samples = vec![Color::new(10, 20, 30), Color::new(20, 30, 41)];
    assert_eq!(average_color(&samples, Color::black()), Color::new(15, 25, 35));
}

#[test]
fn average_of_three_samples() {
    let samples = vec![Color::new(255, 0, 1), Color::new(255, 0, 1), Color::new(254, 3, 0)];
    assert_eq!(average_color(&samples, Color::black()), Color::new(254, 1, 0));
}

#[test]
fn average_of_no_samples_gives_fallback() {
    let samples: Vec<Color> = Vec::new();
    assert_eq!(average_color(&samples, Color::new(9, 8, 7)), Color::new(9, 8, 7));
}

#[test]
fn uniform_samples_average_exactly() {
    let c = Color::new(37, 201, 255);
    for n in [1usize, 2, 3, 7, 64] {
        let samples = vec![c; n];
        assert_eq!(average_color(&samples, Color::black()), c);
    }
}
