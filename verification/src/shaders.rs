//! The WGSL source of the render pass.
//!
//! One full-screen triangle is drawn; the fragment stage turns each output
//! pixel into a colour in a fixed order of stages: debayer, white balance,
//! colour matrix, exposure, highlights and shadows, contrast, levels,
//! saturation, gamma, clamp. Each stage works in the colour space that the
//! one before it leaves, so the order is part of the result.

use vstd::prelude::*;

verus! {

/// Vertex and fragment stage of the render pass.
pub const PASSTHROUGH_SHADER: &'static str = r#"
// ========== Vertex stage ==========
// A full-screen triangle; no vertex buffers are bound.

struct VertexOutput {
    @builtin(position) clip_position: vec4<f32>,
    @location(0) tex_coords: vec2<f32>,
}

@vertex
fn vs_main(@builtin(vertex_index) vertex_index: u32) -> VertexOutput {
    var output: VertexOutput;

    // Vertex 0: (-1, -1) -> tex (0, 1)
    // Vertex 1: ( 3, -1) -> tex (2, 1)
    // Vertex 2: (-1,  3) -> tex (0, -1)
    let x = f32(i32(vertex_index & 1u) * 4 - 1);
    let y = f32(i32(vertex_index >> 1u) * 4 - 1);

    output.clip_position = vec4<f32>(x, -y, 0.0, 1.0);
    output.tex_coords = vec2<f32>((x + 1.0) * 0.5, (y + 1.0) * 0.5);

    return output;
}

// ========== Fragment stage ==========

// The uniform block. Vectors start at multiples of 16 bytes.
struct EditParams {
    exposure: f32,        // -5.0 to +5.0 stops
    contrast: f32,        // -100.0 to +100.0
    highlights: f32,      // -100.0 to +100.0
    shadows: f32,         // -100.0 to +100.0
    whites: f32,          // offset of the white point from 1.0
    blacks: f32,          // the black point
    vibrance: f32,        // -100.0 to +100.0
    saturation: f32,      // -100.0 to +100.0
    temperature: f32,     // -100.0 to +100.0
    tint: f32,            // -100.0 to +100.0
    padding1: f32,
    padding2: f32,
    wb_multipliers: vec4<f32>,  // white balance [R, G, B, G2]
    color_matrix_0: vec3<f32>,  // colour matrix, row 0
    padding3: f32,
    color_matrix_1: vec3<f32>,  // colour matrix, row 1
    padding4: f32,
    color_matrix_2: vec3<f32>,  // colour matrix, row 2
    padding5: f32,
}

@group(0) @binding(0)
var input_texture: texture_2d<u32>;  // sensor values, 16 bits each

@group(0) @binding(1)
var texture_sampler: sampler;  // bound for the layout; integer textures are loaded, not sampled

@group(0) @binding(2)
var<uniform> params: EditParams;

// Nearest-neighbour debayering within the 2x2 cell that a position lies
// in: red at the cell's top left, green at its top right and bottom left,
// blue at its bottom right. The reconstruction rule is chosen by the
// parity of the row and of the column.
fn debayer(coords: vec2<i32>, dimensions: vec2<u32>) -> vec3<f32> {
    let raw_value = textureLoad(input_texture, coords, 0).r;

    // 12-bit sensor data
    let normalized = f32(raw_value) / 4096.0;

    let is_even_row = (coords.y % 2) == 0;
    let is_even_col = (coords.x % 2) == 0;

    var rgb: vec3<f32>;

    if is_even_row {
        if is_even_col {
            // red: green to the right, blue below right
            let r = normalized;
            let g = get_neighbor(coords + vec2<i32>(1, 0), dimensions);
            let b = get_neighbor(coords + vec2<i32>(1, 1), dimensions);
            rgb = vec3<f32>(r, g, b);
        } else {
            // green in a red row: red to the left, blue below
            let g = normalized;
            let r = get_neighbor(coords + vec2<i32>(-1, 0), dimensions);
            let b = get_neighbor(coords + vec2<i32>(0, 1), dimensions);
            rgb = vec3<f32>(r, g, b);
        }
    } else {
        if is_even_col {
            // green in a blue row: red above, blue to the right
            let g = normalized;
            let r = get_neighbor(coords + vec2<i32>(0, -1), dimensions);
            let b = get_neighbor(coords + vec2<i32>(1, 0), dimensions);
            rgb = vec3<f32>(r, g, b);
        } else {
            // blue: red above left, green to the left
            let b = normalized;
            let r = get_neighbor(coords + vec2<i32>(-1, -1), dimensions);
            let g = get_neighbor(coords + vec2<i32>(-1, 0), dimensions);
            rgb = vec3<f32>(r, g, b);
        }
    }

    return rgb;
}

// Loads a neighbour, clamped to the texture's bounds.
fn get_neighbor(coords: vec2<i32>, dimensions: vec2<u32>) -> f32 {
    let clamped = vec2<i32>(
        clamp(coords.x, 0, i32(dimensions.x) - 1),
        clamp(coords.y, 0, i32(dimensions.y) - 1)
    );
    let raw_value = textureLoad(input_texture, clamped, 0).r;
    return f32(raw_value) / 4096.0;
}

@fragment
fn fs_main(input: VertexOutput) -> @location(0) vec4<f32> {
    let dimensions = textureDimensions(input_texture);

    let pixel_coords = vec2<i32>(
        i32(input.tex_coords.x * f32(dimensions.x)),
        i32(input.tex_coords.y * f32(dimensions.y))
    );

    // 1. Debayer: linear camera RGB
    var color = debayer(pixel_coords, dimensions);

    // 2. White balance
    color = color * params.wb_multipliers.rgb;

    // 3. Colour matrix: camera RGB to display RGB
    let color_matrix = mat3x3<f32>(
        params.color_matrix_0,
        params.color_matrix_1,
        params.color_matrix_2
    );
    color = color_matrix * color;

    // 4. Exposure, in stops
    let exposure_multiplier = pow(2.0, params.exposure);
    color = color * exposure_multiplier;

    // 5. Highlights and shadows, weighted by luminance (Rec. 709)
    let lum_for_tone = dot(color, vec3<f32>(0.2126, 0.7152, 0.0722));
    color = color * (1.0 + (lum_for_tone * params.highlights));
    color = color * (1.0 + ((1.0 - lum_for_tone) * params.shadows));

    // 6. Contrast around the midpoint
    let contrast_factor = 1.0 + (params.contrast / 100.0);
    color = (color - 0.5) * contrast_factor + 0.5;

    // 7. Levels; the denominator is kept away from zero
    let black_point = params.blacks;
    let white_point = 1.0 + params.whites;
    let level_range = max(white_point - black_point, 0.0001);
    color = (color - vec3<f32>(black_point)) / vec3<f32>(level_range);

    // 8. Saturation: between luminance and the colour
    let luminance = dot(color, vec3<f32>(0.2126, 0.7152, 0.0722));
    let sat_factor = 1.0 + (params.saturation / 100.0);
    color = mix(vec3<f32>(luminance), color, sat_factor);

    // 9. Gamma: linear to display-referred
    color = pow(color, vec3<f32>(1.0 / 2.2));

    // 10. Clamp
    color = clamp(color, vec3<f32>(0.0), vec3<f32>(1.0));

    return vec4<f32>(color, 1.0);
}
"#;

/// Name of the vertex stage's entry point in [`PASSTHROUGH_SHADER`].
pub const VERTEX_ENTRY: &'static str = "vs_main";

/// Name of the fragment stage's entry point in [`PASSTHROUGH_SHADER`].
pub const FRAGMENT_ENTRY: &'static str = "fs_main";

/// The shader source that the pipeline is built with.
pub fn get_shader() -> (source: &'static str)
    ensures
        source@ == PASSTHROUGH_SHADER@,
{
    PASSTHROUGH_SHADER
}

} // verus!
