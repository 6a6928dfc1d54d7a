use glsl_layout::{Std140, Uniform};

use render_gather::mat::{Mat4, Vec4};
use render_gather::std140::ViewArgs;

fn vec4_bits(x: f32, y: f32, z: f32, w: f32) -> Vec4 {
    Vec4 { x: x.to_bits(), y: y.to_bits(), z: z.to_bits(), w: w.to_bits() }
}

fn counting_cols(base: f32) -> [[f32; 4]; 4] {
    let mut cols = [[0.0f32; 4]; 4];
    for (c, col) in cols.iter_mut().enumerate() {
        for (r, v) in col.iter_mut().enumerate() {
            *v = base + (c * 4 + r) as f32;
        }
    }
    cols
}

fn mat_from_cols(cols: [[f32; 4]; 4]) -> Mat4 {
    Mat4 {
        c0: vec4_bits(cols[0][0], cols[0][1], cols[0][2], cols[0][3]),
        c1: vec4_bits(cols[1][0], cols[1][1], cols[1][2], cols[1][3]),
        c2: vec4_bits(cols[2][0], cols[2][1], cols[2][2], cols[2][3]),
        c3: vec4_bits(cols[3][0], cols[3][1], cols[3][2], cols[3][3]),
    }
}

fn serializer_raw(cols: [[f32; 4]; 4]) -> Vec<u8> {
    let m: glsl_layout::mat4 = cols.into();
    m.std140().as_raw().to_vec()
}

#[test]
fn std140_bytes_match_layout_aware_serializer() {
    let proj_cols = counting_cols(1.5);
    let view_cols = counting_cols(101.25);
    let v = ViewArgs { proj: mat_from_cols(proj_cols), view: mat_from_cols(view_cols) };
    let bytes = v.std140_bytes();
    let mut expected = serializer_raw(proj_cols);
    expected.extend(serializer_raw(view_cols));
    assert_eq!(bytes, expected);
}

#[test]
fn std140_rows_begin_on_16_byte_boundaries() {
    // In the std140 layout a 4x4 float matrix is four four-float rows, each
    // aligned to 16 bytes; the serializer's element type says so too.
    assert_eq!(std::mem::size_of::<<glsl_layout::mat4 as Uniform>::Std140>(), 64);
    assert_eq!(std::mem::align_of::<glsl_layout::Element<glsl_layout::vec4>>(), 16);

    let proj_cols = counting_cols(0.5);
    let view_cols = counting_cols(-31.75);
    let v = ViewArgs { proj: mat_from_cols(proj_cols), view: mat_from_cols(view_cols) };
    let bytes = v.std140_bytes();
    assert_eq!(bytes.len(), 128);
    let all_cols = [proj_cols, view_cols];
    for g in 0..8 {
        let cols = all_cols[g / 4];
        let col = cols[g % 4];
        let mut row_bytes = Vec::new();
        for v in col {
            row_bytes.extend(v.to_bits().to_le_bytes());
        }
        assert_eq!(&bytes[16 * g..16 * g + 16], &row_bytes[..]);
    }
}

#[test]
fn std140_words_are_projection_then_view() {
    let proj_cols = counting_cols(7.0);
    let view_cols = counting_cols(-7.0);
    let v = ViewArgs { proj: mat_from_cols(proj_cols), view: mat_from_cols(view_cols) };
    let words = v.std140_words();
    assert_eq!(words.len(), 32);
    for w in 0..32 {
        let cols = if w < 16 { proj_cols } else { view_cols };
        assert_eq!(words[w], cols[(w % 16) / 4][w % 4].to_bits());
    }
}
