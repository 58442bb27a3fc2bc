use plug::guest::render_rows;

// The escape-time kernel the guest's rendering export runs: quadratic
// iteration z <- z^2 + c with bound radius 2, over the fixed viewport of
// real range [-2.5, 1.0] and imaginary range [-1.0, 1.0].
fn escape_counts(width: usize, height: usize, max_iter: u32) -> Vec<Vec<u32>> {
    let scale_x = 3.5 / width as f64;
    let scale_y = 2.0 / height as f64;
    let mut rows = Vec::with_capacity(height);
    for y in 0..height {
        let cy = -1.0 + y as f64 * scale_y;
        let mut row = Vec::with_capacity(width);
        for x in 0..width {
            let cx = -2.5 + x as f64 * scale_x;
            let mut zx = 0.0f64;
            let mut zy = 0.0f64;
            let mut iter = 0u32;
            while zx * zx + zy * zy <= 4.0 && iter < max_iter {
                let xt = zx * zx - zy * zy + cx;
                zy = 2.0 * zx * zy + cy;
                zx = xt;
                iter += 1;
            }
            row.push(iter);
        }
        rows.push(row);
    }
    rows
}

#[test]
fn default_rendering_is_twenty_four_lines_of_eighty_glyphs() {
    let counts = escape_counts(80, 24, 80);
    let lines = render_rows(&counts, 80);
    assert_eq!(lines.len(), 24);
    for line in &lines {
        assert_eq!(line.chars().count(), 80);
        for c in line.chars() {
            assert!(" .:-=+*#%@".contains(c), "unexpected glyph {:?}", c);
        }
    }
}

#[test]
fn rendering_is_deterministic() {
    let first = render_rows(&escape_counts(80, 24, 80), 80);
    let second = render_rows(&escape_counts(80, 24, 80), 80);
    assert_eq!(first, second);
}

#[test]
fn saturated_cells_use_the_darkest_glyph() {
    let counts = vec![vec![80, 0, 79, 40]];
    let lines = render_rows(&counts, 80);
    assert_eq!(lines, vec!["@ %="]);
}

#[test]
fn zero_iteration_budget_saturates_every_cell() {
    let counts = vec![vec![0, 1, 2], vec![3, 4, 5]];
    let lines = render_rows(&counts, 0);
    assert_eq!(lines, vec!["@@@", "@@@"]);
}
