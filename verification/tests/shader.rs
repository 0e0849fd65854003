use raw_editor::edit::EditParams;
use raw_editor::scalar::Scalar;
use raw_editor::shaders::{get_shader, FRAGMENT_ENTRY, PASSTHROUGH_SHADER, VERTEX_ENTRY};
use raw_editor::uniform::{
    UniformBlock, MATRIX_ROW_WORDS, MATRIX_WORD, UNIFORM_BYTES, UNIFORM_WORDS, WHITE_BALANCE_WORD,
};

fn s(x: f32) -> Scalar {
    Scalar::from_bits(x.to_bits())
}

/// The fields of the shader's uniform struct: name, size and alignment in bytes.
fn shader_fields() -> Vec<(String, usize, usize)> {
    let src = get_shader();
    let start = src.find("struct EditParams {").expect("uniform struct") + "struct EditParams {".len();
    let end = start + src[start..].find('}').unwrap();
    let mut fields = Vec::new();
    for line in src[start..end].lines() {
        let line = line.split("//").next().unwrap().trim().trim_end_matches(',');
        if line.is_empty() {
            continue;
        }
        let (name, ty) = line.split_once(':').unwrap();
        let (size, align) = match ty.trim() {
            "f32" => (4, 4),
            "vec3<f32>" => (12, 16),
            "vec4<f32>" => (16, 16),
            other => panic!("type {}", other),
        };
        fields.push((name.trim().to_string(), size, align));
    }
    fields
}

/// Byte offset of each field under the layout rules of uniform buffers.
fn shader_offsets() -> (Vec<(String, usize)>, usize) {
    let mut offset = 0;
    let mut max_align = 1;
    let mut out = Vec::new();
    for (name, size, align) in shader_fields() {
        offset = (offset + align - 1) / align * align;
        out.push((name, offset));
        offset += size;
        max_align = max_align.max(align);
    }
    (out, (offset + max_align - 1) / max_align * max_align)
}

#[test]
fn get_shader_returns_the_source() {
    assert_eq!(get_shader(), PASSTHROUGH_SHADER);
    assert!(get_shader().contains(&format!("fn {}(", VERTEX_ENTRY)));
    assert!(get_shader().contains(&format!("fn {}(", FRAGMENT_ENTRY)));
    assert!(get_shader().contains("@vertex"));
    assert!(get_shader().contains("@fragment"));
    assert!(get_shader().contains("var input_texture: texture_2d<u32>;"));
}

#[test]
fn uniform_block_matches_the_shader_struct() {
    let (offsets, size) = shader_offsets();
    assert_eq!(size, UNIFORM_BYTES);
    assert_eq!(size, 4 * UNIFORM_WORDS);
    let at = |name: &str| offsets.iter().find(|(n, _)| n == name).unwrap().1;

    let params = EditParams {
        exposure: s(1.0),
        contrast: s(2.0),
        highlights: s(3.0),
        shadows: s(4.0),
        whites: s(5.0),
        blacks: s(6.0),
        vibrance: s(7.0),
        saturation: s(8.0),
        temperature: s(9.0),
        tint: s(10.0),
    };
    let wb = [s(11.0), s(12.0), s(13.0), s(14.0)];
    let matrix = [s(21.0), s(22.0), s(23.0), s(24.0), s(25.0), s(26.0), s(27.0), s(28.0), s(29.0)];
    let words = UniformBlock::new(&params, wb, matrix).to_words();
    let word = |byte: usize| f32::from_bits(words[byte / 4]);

    let names = [
        "exposure", "contrast", "highlights", "shadows", "whites", "blacks", "vibrance",
        "saturation", "temperature", "tint",
    ];
    for (i, name) in names.iter().enumerate() {
        assert_eq!(at(name), 4 * i, "{}", name);
        assert_eq!(word(at(name)), (i + 1) as f32, "{}", name);
    }
    assert_eq!(at("wb_multipliers"), 4 * WHITE_BALANCE_WORD);
    for i in 0..4 {
        assert_eq!(word(at("wb_multipliers") + 4 * i), 11.0 + i as f32);
    }
    for row in 0..3 {
        let name = format!("color_matrix_{}", row);
        assert_eq!(at(&name), 4 * (MATRIX_WORD + MATRIX_ROW_WORDS * row));
        assert_eq!(at(&name) % 16, 0);
        for col in 0..3 {
            assert_eq!(word(at(&name) + 4 * col), 21.0 + (3 * row + col) as f32);
        }
    }
    for (name, offset) in &offsets {
        if name.starts_with("padding") {
            assert_eq!(words[offset / 4], 0, "{}", name);
        }
    }
    // every word of the block belongs to exactly one field of the struct
    let covered: usize = shader_fields().iter().map(|(_, size, _)| size / 4).sum();
    assert_eq!(covered, UNIFORM_WORDS);
}

#[test]
fn shader_stages_are_in_order() {
    let src = get_shader();
    let body = &src[src.find("fn fs_main").unwrap()..];
    let stages = [
        "debayer(pixel_coords, dimensions)",
        "color * params.wb_multipliers.rgb",
        "color_matrix * color",
        "pow(2.0, params.exposure)",
        "params.highlights",
        "params.shadows",
        "(color - 0.5) * contrast_factor + 0.5",
        "max(white_point - black_point, 0.0001)",
        "mix(vec3<f32>(luminance), color, sat_factor)",
        "pow(color, vec3<f32>(1.0 / 2.2))",
        "clamp(color, vec3<f32>(0.0), vec3<f32>(1.0))",
    ];
    let mut from = 0;
    for stage in stages {
        let at = body[from..].find(stage).unwrap_or_else(|| panic!("stage `{}` out of order", stage));
        from += at + stage.len();
    }
    assert_eq!(body.matches("0.2126, 0.7152, 0.0722").count(), 2);
}

#[test]
fn levels_are_neutral_at_zero_and_guarded() {
    let src = get_shader();
    assert!(src.contains("let black_point = params.blacks;"));
    assert!(src.contains("let white_point = 1.0 + params.whites;"));
    assert!(src.contains("let level_range = max(white_point - black_point, 0.0001);"));
    assert!(src.contains("color = (color - vec3<f32>(black_point)) / vec3<f32>(level_range);"));
    let levels = |color: f32, whites: f32, blacks: f32| {
        (color - blacks) / ((1.0 + whites) - blacks).max(0.0001)
    };
    let zero = f32::from_bits(EditParams::new().whites.to_bits());
    for color in [0.0f32, 0.18, 0.5, 1.0] {
        assert_eq!(levels(color, zero, zero), color);
    }
    // white point on the black point: the guard keeps the result finite
    assert!(levels(0.5, -0.75, 0.25).is_finite());
    assert!(levels(0.5, -1.0, 0.25).is_finite());
}

#[test]
fn debayer_stays_within_the_cell() {
    let src = get_shader();
    let body = &src[src.find("fn debayer").unwrap()..src.find("fn get_neighbor").unwrap()];
    let offsets = [
        "vec2<i32>(1, 0)", "vec2<i32>(1, 1)", "vec2<i32>(-1, 0)", "vec2<i32>(0, 1)",
        "vec2<i32>(0, -1)", "vec2<i32>(1, 0)", "vec2<i32>(-1, -1)", "vec2<i32>(-1, 0)",
    ];
    let mut from = 0;
    for offset in offsets {
        let at = body[from..].find(offset).unwrap_or_else(|| panic!("offset {}", offset));
        from += at + offset.len();
    }
    assert!(body.contains("f32(raw_value) / 4096.0"));
    assert!(src.contains("clamp(coords.x, 0, i32(dimensions.x) - 1)"));
    assert!(src.contains("clamp(coords.y, 0, i32(dimensions.y) - 1)"));
}

#[test]
fn exposure_of_one_stop_doubles_linear_values() {
    // The shader multiplies by pow(2.0, exposure) before any other tone stage.
    assert!(get_shader().contains("let exposure_multiplier = pow(2.0, params.exposure);"));
    assert!(get_shader().contains("color = color * exposure_multiplier;"));
    let mid_gray = 0.18f32;
    let exposed = mid_gray * 2.0f32.powf(1.0);
    assert!((exposed / mid_gray - 2.0).abs() < 1e-6);
    let unexposed = mid_gray * 2.0f32.powf(f32::from_bits(EditParams::new().exposure.to_bits()));
    assert_eq!(unexposed, mid_gray);
}

#[test]
fn contrast_of_zero_leaves_color_unchanged() {
    assert!(get_shader().contains("let contrast_factor = 1.0 + (params.contrast / 100.0);"));
    assert!(get_shader().contains("color = (color - 0.5) * contrast_factor + 0.5;"));
    let contrast = f32::from_bits(EditParams::new().contrast.to_bits());
    let factor = 1.0 + contrast / 100.0;
    for color in [0.0f32, 0.18, 0.5, 0.75, 1.0] {
        assert_eq!((color - 0.5) * factor + 0.5, color);
    }
}
