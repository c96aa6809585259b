use ferrosonic::cava::{build_cava_row, generate_cava_config, CavaCell, CavaColor};

fn colors(prefix: &str) -> [String; 8] {
    std::array::from_fn(|i| format!("#{}{}", prefix, i))
}

#[test]
fn cava_config_has_all_sections_and_colors() {
    let g = colors("a");
    let h = colors("b");
    let expected = format!(
        "[general]\nframerate = 60\nautosens = 1\novershoot = 0\nbars = 0\nbar_width = 1\nbar_spacing = 0\nlower_cutoff_freq = 10\nhigher_cutoff_freq = 18000\n\n[input]\nsample_rate = 96000\nsample_bits = 32\nremix = 1\n\n[output]\nmethod = noncurses\norientation = horizontal\nchannels = mono\nmono_option = average\nsynchronized_sync = 1\ndisable_blanking = 1\n\n[color]\ngradient = 1\ngradient_color_1 = '{g0}'\ngradient_color_2 = '{g1}'\ngradient_color_3 = '{g2}'\ngradient_color_4 = '{g3}'\ngradient_color_5 = '{g4}'\ngradient_color_6 = '{g5}'\ngradient_color_7 = '{g6}'\ngradient_color_8 = '{g7}'\nhorizontal_gradient = 1\nhorizontal_gradient_color_1 = '{h0}'\nhorizontal_gradient_color_2 = '{h1}'\nhorizontal_gradient_color_3 = '{h2}'\nhorizontal_gradient_color_4 = '{h3}'\nhorizontal_gradient_color_5 = '{h4}'\nhorizontal_gradient_color_6 = '{h5}'\nhorizontal_gradient_color_7 = '{h6}'\nhorizontal_gradient_color_8 = '{h7}'\n\n[smoothing]\nmonstercat = 0\nwaves = 0\nnoise_reduction = 11\n",
        g0 = g[0], g1 = g[1], g2 = g[2], g3 = g[3],
        g4 = g[4], g5 = g[5], g6 = g[6], g7 = g[7],
        h0 = h[0], h1 = h[1], h2 = h[2], h3 = h[3],
        h4 = h[4], h5 = h[5], h6 = h[6], h7 = h[7],
    );
    assert_eq!(generate_cava_config(&g, &h), expected);
}

fn cell(text: &str, fg: CavaColor, bg: CavaColor) -> CavaCell {
    CavaCell {
        contents: text.to_string(),
        fg,
        bg,
    }
}

#[test]
fn cava_row_groups_runs_of_colors() {
    let red = CavaColor::Indexed(1);
    let blue = CavaColor::Rgb(0, 0, 255);
    let d = CavaColor::Default;
    let cells = vec![
        cell("", d, d),
        cell("a", d, d),
        cell("b", red, d),
        cell("", red, d),
        cell("c", blue, red),
    ];
    let row = build_cava_row(&cells);
    let got: Vec<(String, CavaColor, CavaColor)> =
        row.spans.iter().map(|s| (s.text.clone(), s.fg, s.bg)).collect();
    assert_eq!(
        got,
        vec![
            (" a".to_string(), d, d),
            ("b ".to_string(), red, d),
            ("c".to_string(), blue, red),
        ]
    );
}

#[test]
fn cava_row_starting_in_color_has_no_empty_span() {
    let red = CavaColor::Indexed(1);
    let row = build_cava_row(&vec![cell("x", red, red)]);
    assert_eq!(row.spans.len(), 1);
    assert_eq!(row.spans[0].text, "x");
    assert!(build_cava_row(&vec![]).spans.is_empty());
}
